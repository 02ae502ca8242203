//! Colour swatch widget whose border is an optional stroke.
use vstd::prelude::*;

use crate::types::{Color, Stroke};
use crate::widget::LayoutInfo;

pub mod raw;

verus! {

/// What a colour swatch reports after a frame.
#[derive(Debug, Clone, Copy, PartialEq)]
pub struct ColorSwatchResult<L> {
    pub layout: LayoutInfo<L>,
}

/// A complete colour swatch description.
#[derive(Debug, Clone, Copy, PartialEq)]
pub struct ColorSwatchSpec<L> {
    pub color: Color<L>,
    /// Border stroke drawn around the swatch.
    pub border: Option<Stroke<L>>,
}

impl<L> ColorSwatchSpec<L> {
    pub fn color(self, color: Color<L>) -> (s: Self)
        ensures
            s == (ColorSwatchSpec { color, border: self.border }),
    {
        ColorSwatchSpec { color, border: self.border }
    }

    pub fn border(self, border: Option<Stroke<L>>) -> (s: Self)
        ensures
            s == (ColorSwatchSpec { color: self.color, border }),
    {
        ColorSwatchSpec { color: self.color, border }
    }
}

} // verus!
