//! Level meter drawn as a row of bars.
use vstd::prelude::*;

use crate::types::Color;
use crate::widget::LayoutInfo;

pub mod raw;

verus! {

/// Visual configuration for a meter.
#[derive(Debug, Clone, Copy, PartialEq)]
pub struct MeterStyle<L> {
    pub bar_w: L,
    pub bar_h: L,
    pub bar_gap: L,
    pub ink: Color<L>,
    pub rust: Color<L>,
    pub unlit: Color<L>,
}

/// What a meter reports after a frame.
#[derive(Debug, Clone, Copy, PartialEq)]
pub struct MeterResult<L> {
    pub layout: LayoutInfo<L>,
}

/// A complete meter description.
#[derive(Debug, Clone, Copy, PartialEq)]
pub struct MeterSpec<L> {
    /// Fill level from 0 to 1.
    pub value: L,
    pub style: MeterStyle<L>,
    /// Peak marker level from 0 to 1, if any.
    pub peak: Option<L>,
    /// Number of bars to display.
    pub bars: usize,
}

impl<L> MeterSpec<L> {
    pub fn value(self, value: L) -> (s: Self)
        ensures
            s == (MeterSpec { value, ..self }),
    {
        MeterSpec { value, ..self }
    }

    pub fn style(self, style: MeterStyle<L>) -> (s: Self)
        ensures
            s == (MeterSpec { style, ..self }),
    {
        MeterSpec { style, ..self }
    }

    pub fn peak(self, peak: Option<L>) -> (s: Self)
        ensures
            s == (MeterSpec { peak, ..self }),
    {
        MeterSpec { peak, ..self }
    }

    pub fn bars(self, bars: usize) -> (s: Self)
        ensures
            s == (MeterSpec { bars, ..self }),
    {
        MeterSpec { bars, ..self }
    }
}

impl<L> MeterSpec<L> {
    /// A meter filled to `value` with ten bars and no peak marker, drawn in
    /// `theme_style`, the style the theme gives a meter.
    pub fn new_from_theme(value: L, theme_style: MeterStyle<L>) -> (s: Self)
        ensures
            s == (MeterSpec { value, style: theme_style, peak: None, bars: 10 }),
    {
        MeterSpec { value, style: theme_style, peak: None, bars: 10 }
    }
}

} // verus!
