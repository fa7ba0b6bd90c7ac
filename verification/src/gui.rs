//! A screen made of components that know how to draw themselves.

use vstd::prelude::*;
use vstd::string::*;
use crate::text::{decimal, push_decimal};

verus! {

/// A component that can be drawn.
pub trait Draw {
    /// Whether `line` is a drawing of the component. A component that says
    /// nothing about itself can be drawn any way.
    open spec fn drawn_as(&self, line: Seq<char>) -> bool {
        true
    }

    fn draw(&self) -> (line: String)
        ensures
            self.drawn_as(line@),
    ;
}

/// Components of any kind, to be drawn in order.
pub struct Screen {
    pub components: Vec<Box<dyn Draw>>,
}

impl Screen {
    /// Draws every component, first to last.
    pub fn run(&self) -> (lines: Vec<String>)
        ensures
            lines@.len() == self.components@.len(),
            forall|i: int|
                0 <= i < lines@.len() ==> self.components@[i].drawn_as((#[trigger] lines@[i])@),
    {
        let mut lines: Vec<String> = Vec::new();
        let mut at: usize = 0;
        while at < self.components.len()
            invariant
                at <= self.components@.len(),
                lines@.len() == at,
                forall|i: int|
                    0 <= i < at ==> self.components@[i].drawn_as((#[trigger] lines@[i])@),
            decreases self.components@.len() - at,
        {
            lines.push(self.components[at].draw());
            at = at + 1;
        }
        lines
    }
}

pub struct Button {
    pub width: u32,
    pub height: u32,
    pub label: String,
}

impl Button {
    /// What the button looks like, as a line of text.
    pub open spec fn drawing(&self) -> Seq<char> {
        "Drawing a button with width: "@ + decimal(self.width as nat) + ", height: "@ + decimal(
            self.height as nat,
        ) + ", and label: "@ + self.label@
    }
}

impl Draw for Button {
    open spec fn drawn_as(&self, line: Seq<char>) -> bool {
        line == self.drawing()
    }

    fn draw(&self) -> (line: String) {
        let mut line = String::from_str("Drawing a button with width: ");
        push_decimal(&mut line, self.width as u64);
        line.append(", height: ");
        push_decimal(&mut line, self.height as u64);
        line.append(", and label: ");
        line.append(self.label.as_str());
        line
    }
}

} // verus!
