use ownership::decimal::u8_to_decimal;
use ownership::gives_ownership;
use ownership::makes_copy;
use ownership::ownership_and_functions;
use ownership::program_output;
use ownership::takes_and_gives_back;
use ownership::takes_ownership;
use ownership::transferring_ownership_of_return_values;

#[test]
fn program_output_is_the_four_lines() {
    assert_eq!(program_output(), "hello\n5\ns1:yours\ns3:hello\n");
}

#[test]
fn program_output_is_deterministic() {
    let first = program_output();
    let second = program_output();
    assert_eq!(first, second);
}

#[test]
fn ownership_and_functions_writes_hello_then_five() {
    assert_eq!(ownership_and_functions(), "hello\n5\n");
}

#[test]
fn transfer_writes_the_two_labelled_lines() {
    assert_eq!(transferring_ownership_of_return_values(), "s1:yours\ns3:hello\n");
}

#[test]
fn gives_ownership_yields_yours() {
    assert_eq!(gives_ownership(), "yours");
}

#[test]
fn takes_and_gives_back_returns_the_same_text() {
    assert_eq!(takes_and_gives_back(String::from("hello")), "hello");
    assert_eq!(takes_and_gives_back(String::from("")), "");
    assert_eq!(takes_and_gives_back(String::from("quite another text")), "quite another text");
}

#[test]
fn takes_ownership_appends_one_newline() {
    assert_eq!(takes_ownership(String::from("hello")), "hello\n");
    assert_eq!(takes_ownership(String::from("")), "\n");
    assert_eq!(takes_ownership(String::from("yours")), "yours\n");
}

#[test]
fn makes_copy_writes_the_decimal_line() {
    assert_eq!(makes_copy(5), "5\n");
    assert_eq!(makes_copy(0), "0\n");
    assert_eq!(makes_copy(10), "10\n");
    assert_eq!(makes_copy(255), "255\n");
}

#[test]
fn decimal_of_small_integers() {
    assert_eq!(u8_to_decimal(0), "0");
    assert_eq!(u8_to_decimal(7), "7");
    assert_eq!(u8_to_decimal(42), "42");
    assert_eq!(u8_to_decimal(100), "100");
    assert_eq!(u8_to_decimal(255), "255");
}
