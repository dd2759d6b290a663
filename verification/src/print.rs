//! Lines of formatted text: plain, with positional and named pieces, and with
//! a number in several bases.

use vstd::prelude::*;
use crate::render::{decimal, digits, render_decimal, render_radix};

verus! {

/// `Number: ` and the number in decimal.
pub open spec fn number_text(n: int) -> Seq<char> {
    "Number: "@ + decimal(n)
}

/// Who is from where and likes to do what.
pub open spec fn profile_text(name: Seq<char>, location: Seq<char>, activity: Seq<char>) -> Seq<
    char,
> {
    name + " is from "@ + location + " and likes to "@ + activity
}

/// One number in binary, hexadecimal and octal.
pub open spec fn radix_text(n: nat) -> Seq<char> {
    "Binary: "@ + digits(n, 2) + " Hex: "@ + digits(n, 16) + " Octal: "@ + digits(n, 8)
}

/// A sum written out: the two terms and what they add up to.
pub open spec fn sum_text(a: int, b: int) -> Seq<char> {
    decimal(a) + " + "@ + decimal(b) + " = "@ + decimal(a + b)
}

/// A number, a truth value and the word `hello` as a triple.
pub open spec fn triple_text(n: int, flag: bool) -> Seq<char> {
    "("@ + decimal(n) + ", "@ + (if flag {
        "true"@
    } else {
        "false"@
    }) + ", \"hello\")"@
}

/// The line `Number: ` followed by the number.
pub fn number_line(n: i64) -> (line: String)
    ensures
        line@ == number_text(n as int),
{
    let mut line = String::from_str("Number: ");
    line.append(render_decimal(n).as_str());
    line
}

/// The line that says who is from where and likes to do what.
pub fn profile_line(name: &str, location: &str, activity: &str) -> (line: String)
    ensures
        line@ == profile_text(name@, location@, activity@),
{
    let mut line = String::from_str(name);
    line.append(" is from ");
    line.append(location);
    line.append(" and likes to ");
    line.append(activity);
    line
}

/// The line that shows one number in binary, hexadecimal and octal.
pub fn radix_line(n: u64) -> (line: String)
    ensures
        line@ == radix_text(n as nat),
{
    let mut line = String::from_str("Binary: ");
    line.append(render_radix(n, 2).as_str());
    line.append(" Hex: ");
    line.append(render_radix(n, 16).as_str());
    line.append(" Octal: ");
    line.append(render_radix(n, 8).as_str());
    line
}

/// The line that writes out a sum.
pub fn sum_line(a: i32, b: i32) -> (line: String)
    ensures
        line@ == sum_text(a as int, b as int),
{
    let mut line = render_decimal(a as i64);
    line.append(" + ");
    line.append(render_decimal(b as i64).as_str());
    line.append(" = ");
    line.append(render_decimal(a as i64 + b as i64).as_str());
    line
}

/// The line that shows a number, a truth value and the word `hello` as a
/// triple.
pub fn triple_line(n: i64, flag: bool) -> (line: String)
    ensures
        line@ == triple_text(n as int, flag),
{
    let mut line = String::from_str("(");
    line.append(render_decimal(n).as_str());
    line.append(", ");
    if flag {
        line.append("true");
    } else {
        line.append("false");
    }
    line.append(", \"hello\")");
    line
}

/// The seven lines of the demonstration, as they are printed.
pub open spec fn lines() -> Seq<Seq<char>> {
    seq![
        "Hello from print.rs file"@,
        "Number: 1"@,
        "Alex is from New Orleans and likes to code"@,
        "Alex is from New Orleans and likes to code"@,
        "Binary: 1010 Hex: a Octal: 12"@,
        "(12, true, \"hello\")"@,
        "10 + 10 = 20"@,
    ]
}

proof fn lemma_number_one()
    ensures
        number_text(1) == "Number: 1"@,
{
    reveal_strlit("0123456789abcdef");
    reveal_strlit("Number: ");
    reveal_strlit("Number: 1");
    assert(number_text(1) =~= "Number: 1"@);
}

proof fn lemma_profile()
    ensures
        profile_text("Alex"@, "New Orleans"@, "code"@)
            == "Alex is from New Orleans and likes to code"@,
{
    reveal_strlit("Alex");
    reveal_strlit("New Orleans");
    reveal_strlit("code");
    reveal_strlit(" is from ");
    reveal_strlit(" and likes to ");
    reveal_strlit("Alex is from New Orleans and likes to code");
    assert(profile_text("Alex"@, "New Orleans"@, "code"@)
        =~= "Alex is from New Orleans and likes to code"@);
}

proof fn lemma_radix_ten()
    ensures
        radix_text(10) == "Binary: 1010 Hex: a Octal: 12"@,
{
    reveal_strlit("0123456789abcdef");
    reveal_strlit("Binary: ");
    reveal_strlit(" Hex: ");
    reveal_strlit(" Octal: ");
    reveal_strlit("Binary: 1010 Hex: a Octal: 12");
    reveal_with_fuel(digits, 5);
    assert(digits(10, 2) =~= seq!['1', '0', '1', '0']);
    assert(digits(10, 16) =~= seq!['a']);
    assert(digits(10, 8) =~= seq!['1', '2']);
    assert(radix_text(10) =~= "Binary: 1010 Hex: a Octal: 12"@);
}

proof fn lemma_triple()
    ensures
        triple_text(12, true) == "(12, true, \"hello\")"@,
{
    reveal_strlit("0123456789abcdef");
    reveal_strlit("(");
    reveal_strlit(", ");
    reveal_strlit("true");
    reveal_strlit(", \"hello\")");
    reveal_strlit("(12, true, \"hello\")");
    reveal_with_fuel(digits, 3);
    assert(digits(12, 10) =~= seq!['1', '2']);
    assert(triple_text(12, true) =~= "(12, true, \"hello\")"@);
}

proof fn lemma_sum_of_tens()
    ensures
        sum_text(10, 10) == "10 + 10 = 20"@,
{
    reveal_strlit("0123456789abcdef");
    reveal_strlit(" + ");
    reveal_strlit(" = ");
    reveal_strlit("10 + 10 = 20");
    reveal_with_fuel(digits, 3);
    assert(digits(10, 10) =~= seq!['1', '0']);
    assert(digits(20, 10) =~= seq!['2', '0']);
    assert(sum_text(10, 10) =~= "10 + 10 = 20"@);
}

/// Builds the lines of the demonstration, in the order in which they are
/// printed.
pub fn run() -> (out: Vec<String>)
    ensures
        out.deep_view() == lines(),
{
    let mut out: Vec<String> = Vec::new();
    out.push(String::from_str("Hello from print.rs file"));
    out.push(number_line(1));
    out.push(profile_line("Alex", "New Orleans", "code"));
    out.push(profile_line("Alex", "New Orleans", "code"));
    out.push(radix_line(10));
    out.push(triple_line(12, true));
    out.push(sum_line(10, 10));
    proof {
        lemma_number_one();
        lemma_profile();
        lemma_radix_ten();
        lemma_triple();
        lemma_sum_of_tens();
        assert(out.deep_view() =~= lines());
    }
    out
}

} // verus!
