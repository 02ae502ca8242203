//! Level meter drawn as a row of bars, specs assembled with a builder.
use vstd::prelude::*;

use crate::types::Color;
use crate::widget::LayoutInfo;

pub mod meter;
pub mod raw;

verus! {

/// Visual configuration for a meter.
#[derive(Debug, Clone, Copy, PartialEq)]
pub struct MeterStyle<L> {
    pub bar_w: L,
    pub bar_h: L,
    pub bar_gap: L,
    pub ink: Color<L>,
    pub rust: Color<L>,
    pub unlit: Color<L>,
}

/// What a meter reports after a frame.
#[derive(Debug, Clone, Copy, PartialEq)]
pub struct MeterResult<L> {
    pub layout: LayoutInfo<L>,
}

/// A complete meter description.
#[derive(Debug, Clone, Copy, PartialEq)]
pub struct MeterSpec<L> {
    /// Fill level from 0 to 1.
    pub value: L,
    pub style: MeterStyle<L>,
    /// Peak marker level from 0 to 1, if any.
    pub peak: Option<L>,
    /// Number of bars to display.
    pub bars: usize,
}

/// Builder for [`MeterSpec`].
#[derive(Debug, Clone, Copy, PartialEq)]
pub struct MeterSpecBuilder<L> {
    pub value: Option<L>,
    pub style: Option<MeterStyle<L>>,
    pub peak: Option<Option<L>>,
    pub bars: Option<usize>,
}

impl<L> MeterSpecBuilder<L> {
    pub fn new() -> (b: Self)
        ensures
            b == (MeterSpecBuilder::<L> { value: None, style: None, peak: None, bars: None }),
    {
        MeterSpecBuilder { value: None, style: None, peak: None, bars: None }
    }

    pub fn value(self, value: L) -> (b: Self)
        ensures
            b == (MeterSpecBuilder { value: Some(value), ..self }),
    {
        MeterSpecBuilder { value: Some(value), ..self }
    }

    pub fn style(self, style: MeterStyle<L>) -> (b: Self)
        ensures
            b == (MeterSpecBuilder { style: Some(style), ..self }),
    {
        MeterSpecBuilder { style: Some(style), ..self }
    }

    pub fn peak(self, peak: Option<L>) -> (b: Self)
        ensures
            b == (MeterSpecBuilder { peak: Some(peak), ..self }),
    {
        MeterSpecBuilder { peak: Some(peak), ..self }
    }

    pub fn bars(self, bars: usize) -> (b: Self)
        ensures
            b == (MeterSpecBuilder { bars: Some(bars), ..self }),
    {
        MeterSpecBuilder { bars: Some(bars), ..self }
    }

    /// The spec: without a peak marker and with ten bars unless set. Value
    /// and style must have been set.
    pub fn build(self) -> (spec: MeterSpec<L>)
        requires
            self.value is Some,
            self.style is Some,
        ensures
            Some(spec.value) == self.value,
            Some(spec.style) == self.style,
            spec.peak == match self.peak {
                Some(p) => p,
                None => None,
            },
            spec.bars == match self.bars {
                Some(n) => n,
                None => 10,
            },
    {
        let peak = match self.peak {
            Some(p) => p,
            None => None,
        };
        let bars = match self.bars {
            Some(n) => n,
            None => 10,
        };
        MeterSpec { value: self.value.unwrap(), style: self.style.unwrap(), peak, bars }
    }
}

impl<L> MeterSpecBuilder<L> {
    /// Fills an unset style with `theme_style`, the style the theme gives
    /// a meter (it is computed in floating point, outside this library); a
    /// style the caller set is kept, and every other field is unchanged.
    pub fn defaults_from_theme(self, theme_style: MeterStyle<L>) -> (b: Self)
        ensures
            b == (MeterSpecBuilder {
                style: if self.style is Some {
                    self.style
                } else {
                    Some(theme_style)
                },
                ..self
            }),
    {
        if self.style.is_some() {
            self
        } else {
            MeterSpecBuilder { style: Some(theme_style), ..self }
        }
    }
}

} // verus!
