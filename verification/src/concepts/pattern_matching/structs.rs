//! Dispatch over the variants of a message, each with its own data.

use vstd::prelude::*;
use crate::render::{decimal, digits, render_decimal};

verus! {

/// A message of one of three kinds.
pub enum Message {
    /// Carries nothing.
    Quit,
    /// Carries a text.
    Write(String),
    /// Carries the red, green and blue parts of a colour.
    ChangeColor(i32, i32, i32),
}

/// A message as the contracts see it.
pub enum MessageView {
    Quit,
    Write(Seq<char>),
    ChangeColor(int, int, int),
}

impl View for Message {
    type V = MessageView;

    open spec fn view(&self) -> MessageView {
        match self {
            Message::Quit => MessageView::Quit,
            Message::Write(text) => MessageView::Write(text@),
            Message::ChangeColor(r, g, b) => MessageView::ChangeColor(*r as int, *g as int, *b as int),
        }
    }
}

impl MessageView {
    /// The line that handles the message, one form for each kind.
    pub open spec fn text(self) -> Seq<char> {
        match self {
            MessageView::Quit => "The Quit variant has no data to destructure."@,
            MessageView::Write(text) => "Text message: "@ + text,
            MessageView::ChangeColor(r, g, b) => "Change the color to red "@ + decimal(r)
                + ", green "@ + decimal(g) + ", and blue "@ + decimal(b),
        }
    }
}

impl Message {
    /// Handles the message according to its kind and returns the line to show.
    pub fn describe(&self) -> (line: String)
        ensures
            line@ == self@.text(),
    {
        match self {
            Message::Quit => String::from_str("The Quit variant has no data to destructure."),
            Message::Write(text) => {
                let mut line = String::from_str("Text message: ");
                line.append(text.as_str());
                line
            },
            Message::ChangeColor(r, g, b) => {
                let mut line = String::from_str("Change the color to red ");
                line.append(render_decimal(*r as i64).as_str());
                line.append(", green ");
                line.append(render_decimal(*g as i64).as_str());
                line.append(", and blue ");
                line.append(render_decimal(*b as i64).as_str());
                line
            },
        }
    }
}

/// The three lines of the demonstration, as they are printed.
pub open spec fn lines() -> Seq<Seq<char>> {
    seq![
        "The Quit variant has no data to destructure."@,
        "Text message: Hello, Rust!"@,
        "Change the color to red 255, green 0, and blue 0"@,
    ]
}

proof fn lemma_lines()
    ensures
        MessageView::Quit.text() == lines()[0],
        MessageView::Write("Hello, Rust!"@).text() == lines()[1],
        MessageView::ChangeColor(255, 0, 0).text() == lines()[2],
{
    reveal_strlit("0123456789abcdef");
    reveal_strlit("Text message: ");
    reveal_strlit("Hello, Rust!");
    reveal_strlit("Text message: Hello, Rust!");
    reveal_strlit("Change the color to red ");
    reveal_strlit(", green ");
    reveal_strlit(", and blue ");
    reveal_strlit("Change the color to red 255, green 0, and blue 0");
    reveal_with_fuel(digits, 4);
    assert(decimal(255) =~= seq!['2', '5', '5']);
    assert(MessageView::Write("Hello, Rust!"@).text() =~= "Text message: Hello, Rust!"@);
    assert(MessageView::ChangeColor(255, 0, 0).text()
        =~= "Change the color to red 255, green 0, and blue 0"@);
}

/// Builds the lines of the demonstration: one message of each kind, handled
/// in turn.
pub fn run() -> (out: Vec<String>)
    ensures
        out.deep_view() == lines(),
{
    let mut messages: Vec<Message> = Vec::new();
    messages.push(Message::Quit);
    messages.push(Message::Write(String::from_str("Hello, Rust!")));
    messages.push(Message::ChangeColor(255, 0, 0));
    let mut out: Vec<String> = Vec::new();
    let mut i: usize = 0;
    while i < messages.len()
        invariant
            i <= messages.len(),
            out@.len() == i,
            forall|j: int| 0 <= j < i ==> (#[trigger] out@[j])@ == messages@[j]@.text(),
        decreases messages.len() - i,
    {
        out.push(messages[i].describe());
        i = i + 1;
    }
    proof {
        lemma_lines();
        assert(out.deep_view() =~= lines());
    }
    out
}

} // verus!
