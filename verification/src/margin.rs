//! Margins around a rendered window.
use crate::text::{decimal_seq, push_decimal, push_str};
use vstd::prelude::*;

verus! {

/// Space kept free on each side, in pixels.
#[derive(Debug, Clone, Copy, PartialEq, Eq, Structural)]
pub struct Margins {
    pub left: u32,
    pub right: u32,
    pub top: u32,
    pub bottom: u32,
}

/// The text of margins: `(left: L, right: R, top: T, bottom: B)`.
pub open spec fn margins_text(m: Margins) -> Seq<char> {
    "(left: "@ + decimal_seq(m.left as nat) + ", right: "@ + decimal_seq(m.right as nat) + ", top: "@
        + decimal_seq(m.top as nat) + ", bottom: "@ + decimal_seq(m.bottom as nat) + ")"@
}

impl Margins {
    /// Creates margins from the four sides.
    pub fn new(left: u32, right: u32, top: u32, bottom: u32) -> (m: Self)
        ensures
            m == (Margins { left, right, top, bottom }),
    {
        Margins { left, right, top, bottom }
    }

    /// A builder that starts with every side at 0.
    pub fn builder() -> (b: MarginsBuilder)
        ensures
            b.margins == (Margins { left: 0, right: 0, top: 0, bottom: 0 }),
    {
        MarginsBuilder { margins: Margins { left: 0, right: 0, top: 0, bottom: 0 } }
    }

    /// `(left: L, right: R, top: T, bottom: B)`.
    pub fn to_display_string(&self) -> (s: String)
        ensures
            s@ == margins_text(*self),
    {
        let mut s = String::new();
        push_str(&mut s, "(left: ");
        push_decimal(&mut s, self.left as u64);
        push_str(&mut s, ", right: ");
        push_decimal(&mut s, self.right as u64);
        push_str(&mut s, ", top: ");
        push_decimal(&mut s, self.top as u64);
        push_str(&mut s, ", bottom: ");
        push_decimal(&mut s, self.bottom as u64);
        push_str(&mut s, ")");
        assert(s@ =~= margins_text(*self));
        s
    }
}

impl Default for Margins {
    fn default() -> (m: Self)
        ensures
            m == (Margins { left: 0, right: 0, top: 0, bottom: 0 }),
    {
        Margins { left: 0, right: 0, top: 0, bottom: 0 }
    }
}

/// Sets the sides of `Margins` one at a time.
pub struct MarginsBuilder {
    pub margins: Margins,
}

impl MarginsBuilder {
    /// Sets the left side.
    pub fn left(self, left: u32) -> (b: Self)
        ensures
            b.margins == (Margins { left, ..self.margins }),
    {
        MarginsBuilder { margins: Margins { left, ..self.margins } }
    }

    /// Sets the right side.
    pub fn right(self, right: u32) -> (b: Self)
        ensures
            b.margins == (Margins { right, ..self.margins }),
    {
        MarginsBuilder { margins: Margins { right, ..self.margins } }
    }

    /// Sets the top side.
    pub fn top(self, top: u32) -> (b: Self)
        ensures
            b.margins == (Margins { top, ..self.margins }),
    {
        MarginsBuilder { margins: Margins { top, ..self.margins } }
    }

    /// Sets the bottom side.
    pub fn bottom(self, bottom: u32) -> (b: Self)
        ensures
            b.margins == (Margins { bottom, ..self.margins }),
    {
        MarginsBuilder { margins: Margins { bottom, ..self.margins } }
    }

    /// The margins set so far.
    pub fn build(self) -> (m: Margins)
        ensures
            m == self.margins,
    {
        self.margins
    }
}

} // verus!
