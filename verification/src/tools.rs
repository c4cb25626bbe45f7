//! The closed set of drawing tools a user can pick in the toolbar.

use vstd::prelude::*;

verus! {

/// One of the six mutually-exclusive annotation tools.
#[derive(Debug, Clone, Copy, PartialEq, Eq, Structural)]
pub enum Tool {
    Arrow,
    Rectangle,
    Line,
    Ellipse,
    Highlight,
    Blur,
}

impl Default for Tool {
    /// The editor starts with the arrow tool selected.
    fn default() -> (t: Self)
        ensures
            t == Tool::Arrow,
    {
        Tool::Arrow
    }
}

impl Tool {
    /// The label shown for this tool.
    pub fn name(&self) -> (r: &'static str)
        ensures
            r@ == match *self {
                Tool::Arrow => "Arrow"@,
                Tool::Rectangle => "Rectangle"@,
                Tool::Line => "Line"@,
                Tool::Ellipse => "Ellipse"@,
                Tool::Highlight => "Highlight"@,
                Tool::Blur => "Blur"@,
            },
    {
        match self {
            Tool::Arrow => "Arrow",
            Tool::Rectangle => "Rectangle",
            Tool::Line => "Line",
            Tool::Ellipse => "Ellipse",
            Tool::Highlight => "Highlight",
            Tool::Blur => "Blur",
        }
    }
}

} // verus!
