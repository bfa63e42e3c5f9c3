//! The two closed alignment enumerations of the display window.

use vstd::prelude::*;
use vstd::string::StringExecFns;

verus! {

/// Where the window sits vertically on the screen.
#[derive(Debug, Clone, Copy, Eq, PartialEq, Ord, PartialOrd, Hash)]
pub enum VerticalAlign {
    Top,
    Center,
    Bottom,
}

impl VerticalAlign {
    /// The lowercase name of the alignment.
    pub fn label(&self) -> (r: String)
        ensures
            *self == VerticalAlign::Top ==> r@ == "top"@,
            *self == VerticalAlign::Center ==> r@ == "center"@,
            *self == VerticalAlign::Bottom ==> r@ == "bottom"@,
    {
        match self {
            VerticalAlign::Top => String::from_str("top"),
            VerticalAlign::Center => String::from_str("center"),
            VerticalAlign::Bottom => String::from_str("bottom"),
        }
    }
}

/// Where the window sits horizontally on the screen.
#[derive(Debug, Clone, Copy, Eq, PartialEq, Ord, PartialOrd, Hash)]
pub enum HorizontalAlign {
    Left,
    Center,
    Right,
}

impl HorizontalAlign {
    /// The lowercase name of the alignment.
    pub fn label(&self) -> (r: String)
        ensures
            *self == HorizontalAlign::Left ==> r@ == "left"@,
            *self == HorizontalAlign::Center ==> r@ == "center"@,
            *self == HorizontalAlign::Right ==> r@ == "right"@,
    {
        match self {
            HorizontalAlign::Left => String::from_str("left"),
            HorizontalAlign::Center => String::from_str("center"),
            HorizontalAlign::Right => String::from_str("right"),
        }
    }
}

} // verus!
