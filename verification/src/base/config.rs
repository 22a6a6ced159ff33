//! Page settings of a printed document.

use vstd::prelude::*;

verus! {

/// The direction in which a page is laid out.
#[derive(Debug, Clone, Copy, PartialEq, Eq, Structural)]
pub enum Orientation {
    Portrait,
    Landscape,
}

impl Orientation {
    /// The name of the orientation in lower case.
    pub open spec fn label(self) -> Seq<char> {
        match self {
            Orientation::Portrait => "portrait"@,
            Orientation::Landscape => "landscape"@,
        }
    }

    /// The name of the orientation in lower case, as it is printed.
    pub fn to_text(&self) -> (text: String)
        ensures
            text@ == self.label(),
    {
        match self {
            Orientation::Portrait => "portrait".to_owned(),
            Orientation::Landscape => "landscape".to_owned(),
        }
    }

    /// Whether the page is turned on its side.
    pub fn is_flipped(&self) -> (flipped: bool)
        ensures
            flipped == (*self == Orientation::Landscape),
    {
        match self {
            Orientation::Portrait => false,
            Orientation::Landscape => true,
        }
    }
}

} // verus!
