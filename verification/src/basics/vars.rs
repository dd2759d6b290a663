//! Bindings: a name, an age that changes once, and a constant.

use vstd::prelude::*;
use crate::render::{decimal, render_decimal};

verus! {

/// The identifier that never changes.
pub const ID: i32 = 1;

/// Who is speaking and how old they are.
pub open spec fn introduction_text(name: Seq<char>, age: int) -> Seq<char> {
    "My name is "@ + name + " and I am "@ + decimal(age)
}

/// `ID: ` and the identifier in decimal.
pub open spec fn id_text(id: int) -> Seq<char> {
    "ID: "@ + decimal(id)
}

/// The two lines of the demonstration, as they are printed.
pub open spec fn lines() -> Seq<Seq<char>> {
    seq!["My name is Alex and I am 27"@, "ID: 1"@]
}

/// The line that says who is speaking and how old they are.
pub fn introduction(name: &str, age: i32) -> (line: String)
    ensures
        line@ == introduction_text(name@, age as int),
{
    let mut line = String::from_str("My name is ");
    line.append(name);
    line.append(" and I am ");
    line.append(render_decimal(age as i64).as_str());
    line
}

/// The line that shows an identifier.
pub fn id_line(id: i32) -> (line: String)
    ensures
        line@ == id_text(id as int),
{
    let mut line = String::from_str("ID: ");
    line.append(render_decimal(id as i64).as_str());
    line
}

proof fn lemma_lines()
    ensures
        introduction_text("Alex"@, 27) == lines()[0],
        id_text(ID as int) == lines()[1],
{
    reveal_strlit("0123456789abcdef");
    reveal_strlit("My name is ");
    reveal_strlit("Alex");
    reveal_strlit(" and I am ");
    reveal_strlit("My name is Alex and I am 27");
    reveal_strlit("ID: ");
    reveal_strlit("ID: 1");
    reveal_with_fuel(crate::render::digits, 3);
    assert(decimal(27) =~= seq!['2', '7']);
    assert(introduction_text("Alex"@, 27) =~= "My name is Alex and I am 27"@);
    assert(id_text(1) =~= "ID: 1"@);
}

/// Builds the lines of the demonstration: the age is bound as 26 and then
/// changed to 27 before the first line is made, so the line shows 27.
pub fn run() -> (out: Vec<String>)
    ensures
        out.deep_view() == lines(),
{
    let name = "Alex";
    let mut age: i32 = 26;
    age = 27;
    let mut out: Vec<String> = Vec::new();
    out.push(introduction(name, age));
    out.push(id_line(ID));
    proof {
        lemma_lines();
        assert(out.deep_view() =~= lines());
    }
    out
}

} // verus!
