//! Divider widget drawn with a stroke.
use vstd::prelude::*;

use crate::types::{Color, Stroke};
use crate::widget::LayoutInfo;

pub mod raw;

verus! {

/// What a divider reports after a frame.
#[derive(Debug, Clone, Copy, PartialEq)]
pub struct DividerResult<L> {
    pub layout: LayoutInfo<L>,
}

/// A complete divider description.
#[derive(Debug, Clone, Copy, PartialEq)]
pub struct DividerSpec<L> {
    pub stroke: Stroke<L>,
}

impl<L> DividerSpec<L> {
    pub fn stroke(self, stroke: Stroke<L>) -> (s: Self)
        ensures
            s.stroke == stroke,
    {
        DividerSpec { stroke }
    }

    /// Patches the current stroke colour, keeping its width.
    pub fn color(self, color: Color<L>) -> (s: Self)
        ensures
            s.stroke == (Stroke { color, width: self.stroke.width }),
    {
        DividerSpec { stroke: Stroke { color, width: self.stroke.width } }
    }

    /// Patches the current stroke width, keeping its colour.
    pub fn width(self, width: L) -> (s: Self)
        ensures
            s.stroke == (Stroke { color: self.stroke.color, width }),
    {
        DividerSpec { stroke: Stroke { color: self.stroke.color, width } }
    }
}

} // verus!
