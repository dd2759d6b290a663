//! Taking a struct apart: all of its fields, or only some.

use vstd::prelude::*;
use crate::render::{decimal, digits, render_decimal};

verus! {

/// A point in the plane.
#[derive(Clone, Copy, Debug, PartialEq, Eq, Structural)]
pub struct Point {
    pub x: i32,
    pub y: i32,
}

impl Point {
    /// Where the point is, by both coordinates.
    pub open spec fn position_text(self) -> Seq<char> {
        "The point is at ("@ + decimal(self.x as int) + ", "@ + decimal(self.y as int) + ")"@
    }

    /// Where the point is along the first axis; the second coordinate is left
    /// out.
    pub open spec fn x_axis_text(self) -> Seq<char> {
        "The point is on the x-axis at "@ + decimal(self.x as int)
    }

    /// The line that tells both coordinates.
    pub fn position_line(&self) -> (line: String)
        ensures
            line@ == self.position_text(),
    {
        let Point { x, y } = *self;
        let mut line = String::from_str("The point is at (");
        line.append(render_decimal(x as i64).as_str());
        line.append(", ");
        line.append(render_decimal(y as i64).as_str());
        line.append(")");
        line
    }

    /// The line that tells the first coordinate only.
    pub fn x_axis_line(&self) -> (line: String)
        ensures
            line@ == self.x_axis_text(),
    {
        let Point { x, .. } = *self;
        let mut line = String::from_str("The point is on the x-axis at ");
        line.append(render_decimal(x as i64).as_str());
        line
    }
}

/// The two lines of the demonstration, as they are printed.
pub open spec fn lines() -> Seq<Seq<char>> {
    seq!["The point is at (0, 7)"@, "The point is on the x-axis at 0"@]
}

proof fn lemma_lines()
    ensures
        (Point { x: 0, y: 7 }).position_text() == lines()[0],
        (Point { x: 0, y: 7 }).x_axis_text() == lines()[1],
{
    let point = Point { x: 0, y: 7 };
    reveal_strlit("0123456789abcdef");
    reveal_strlit("The point is at (");
    reveal_strlit(", ");
    reveal_strlit(")");
    reveal_strlit("The point is at (0, 7)");
    reveal_strlit("The point is on the x-axis at ");
    reveal_strlit("The point is on the x-axis at 0");
    reveal_with_fuel(digits, 2);
    assert(point.position_text() =~= "The point is at (0, 7)"@);
    assert(point.x_axis_text() =~= "The point is on the x-axis at 0"@);
}

/// Builds the lines of the demonstration for the point `(0, 7)`.
pub fn run() -> (out: Vec<String>)
    ensures
        out.deep_view() == lines(),
{
    let point = Point { x: 0, y: 7 };
    let mut out: Vec<String> = Vec::new();
    out.push(point.position_line());
    out.push(point.x_axis_line());
    proof {
        lemma_lines();
        assert(out.deep_view() =~= lines());
    }
    out
}

} // verus!
