//! The six faces of the cubemap and their fixed attributes: the file-name
//! stem of each face and the quarter-turn each face receives when the output
//! is re-oriented for a Z-up convention.

use vstd::prelude::*;

verus! {

/// One face of the cubemap, named by the direction it looks toward.
#[derive(Clone, Copy, Debug, PartialEq, Eq, Structural)]
pub enum Side {
    Front,
    Back,
    Left,
    Right,
    Top,
    Bottom,
}

impl Side {
    /// The file-name stem used for this face's output image.
    pub fn name(&self) -> (r: &'static str)
        ensures
            r@ == self.name_spec(),
    {
        match self {
            Side::Front => "front",
            Side::Back => "back",
            Side::Left => "left",
            Side::Right => "right",
            Side::Top => "top",
            Side::Bottom => "bottom",
        }
    }

    pub open spec fn name_spec(self) -> Seq<char> {
        match self {
            Side::Front => "front"@,
            Side::Back => "back"@,
            Side::Left => "left"@,
            Side::Right => "right"@,
            Side::Top => "top"@,
            Side::Bottom => "bottom"@,
        }
    }
}

} // verus!
