//! A small library of text-producing routines built around value ownership:
//! a producer hands a fresh text value to its caller, a pass-through helper
//! moves a text value in and back out, and two demonstration routines
//! assemble the exact lines that the accompanying program writes.

use vstd::prelude::*;

pub mod decimal;

verus! {

/// The line the text consumer writes for a text value: the text itself,
/// terminated by a newline.
pub open spec fn text_line(s: Seq<char>) -> Seq<char> {
    s + "\n"@
}

/// The line the integer consumer writes for an integer: its decimal
/// representation, terminated by a newline.
pub open spec fn integer_line(n: nat) -> Seq<char> {
    decimal::decimal_of(n) + "\n"@
}

/// Everything the first demonstration routine writes: the line for the
/// text `hello`, then the line for the integer `5`.
pub open spec fn ownership_and_functions_output() -> Seq<char> {
    text_line("hello"@) + integer_line(5)
}

/// Everything the second demonstration routine writes: one line labelling
/// the produced text `s1:yours`, then one labelling the passed-through
/// text `s3:hello`.
pub open spec fn transfer_output() -> Seq<char> {
    text_line("s1:"@ + "yours"@) + text_line("s3:"@ + "hello"@)
}

/// Everything the program writes to standard output: the first
/// demonstration routine's lines, then the second's.
pub open spec fn program_output_spec() -> Seq<char> {
    ownership_and_functions_output() + transfer_output()
}

/// Consumes a text value and renders the line that is written for it.
/// The value moves in and is released here; only its line survives.
pub fn takes_ownership(some_string: String) -> (r: String)
    ensures
        r@ == text_line(some_string@),
{
    let mut r = some_string;
    r.append("\n");
    r
}

/// Takes a freely duplicable integer and renders the line that is written
/// for it: its decimal representation, terminated by a newline.
pub fn makes_copy(some_integer: u8) -> (r: String)
    ensures
        r@ == integer_line(some_integer as nat),
{
    let mut r = decimal::u8_to_decimal(some_integer);
    r.append("\n");
    r
}

/// Returns a freshly constructed text value with content `yours`;
/// ownership of the result moves to the caller.
pub fn gives_ownership() -> (some_string: String)
    ensures
        some_string@ == "yours"@,
{
    let some_string = String::from_str("yours");
    some_string
}

/// Moves the given text value in and returns the very same value,
/// unchanged, back to the caller.
pub fn takes_and_gives_back(a_string: String) -> (r: String)
    ensures
        r == a_string,
{
    a_string
}

/// The first demonstration routine: constructs the text `hello` and hands
/// it to the text consumer, then hands the integer `5` to the integer
/// consumer. Returns the two lines those consumers write, in order.
pub fn ownership_and_functions() -> (r: String)
    ensures
        r@ == ownership_and_functions_output(),
{
    let s = String::from_str("hello");
    let mut r = takes_ownership(s);
    let x: u8 = 5;
    r.append(makes_copy(x).as_str());
    r
}

/// The second demonstration routine: acquires `s1` from the producer,
/// constructs `s2` with content `hello`, moves `s2` through the
/// pass-through helper into `s3`, and returns the two labelled lines
/// written for `s1` and `s3`. `s2` is consumed by the pass-through call
/// and is never used again under its own name.
pub fn transferring_ownership_of_return_values() -> (r: String)
    ensures
        r@ == transfer_output(),
{
    let s1 = gives_ownership();
    let s2 = String::from_str("hello");
    let s3 = takes_and_gives_back(s2);
    let mut r = String::from_str("s1:");
    r.append(s1.as_str());
    r.append("\n");
    r.append("s3:");
    r.append(s3.as_str());
    r.append("\n");
    proof {
        assert(r@ =~= transfer_output());
    }
    r
}

/// The whole program's standard output: the first demonstration routine's
/// lines followed by the second's.
pub fn program_output() -> (r: String)
    ensures
        r@ == program_output_spec(),
{
    let mut r = ownership_and_functions();
    r.append(transferring_ownership_of_return_values().as_str());
    r
}

/// The program's standard output is exactly these four lines, in this
/// order, each terminated by a newline:
/// `hello`, `5`, `s1:yours`, `s3:hello`.
pub proof fn lemma_program_output_is_four_lines()
    ensures
        program_output_spec() == "hello\n5\ns1:yours\ns3:hello\n"@,
{
    reveal_strlit("hello\n5\ns1:yours\ns3:hello\n");
    reveal_strlit("hello");
    reveal_strlit("yours");
    reveal_strlit("s1:");
    reveal_strlit("s3:");
    reveal_strlit("\n");
    assert(program_output_spec() =~= "hello\n5\ns1:yours\ns3:hello\n"@);
}

/// Determinism: the program's output is a single fixed character
/// sequence, so any two runs produce byte-identical output.
pub proof fn lemma_program_output_deterministic(first: Seq<char>, second: Seq<char>)
    requires
        first == program_output_spec(),
        second == program_output_spec(),
    ensures
        first == second,
{
}

} // verus!
