//! Per-phase meter functions.
use vstd::prelude::*;

use super::MeterStyle;
use crate::types::{Layer, Rect};

verus! {

/// Everything the meter needs to draw once layout has placed it.
#[derive(Debug, Clone, Copy, PartialEq)]
pub struct MeterSpec<L> {
    pub layer: Layer,
    pub rect: Rect<L>,
    /// Fill level from 0 to 1.
    pub value: L,
    pub style: MeterStyle<L>,
    /// Peak marker level from 0 to 1, if any.
    pub peak: Option<L>,
    /// Number of bars to display.
    pub bars: usize,
}

/// What the meter's size request depends on.
#[derive(Debug, Clone, Copy, PartialEq)]
pub struct MeterCalcSizeRequestSpec<L> {
    pub style: MeterStyle<L>,
    /// Number of bars to display.
    pub bars: usize,
}

/// What the meter reports after drawing: nothing.
#[derive(Debug, Clone, Copy, PartialEq)]
pub struct MeterResult {}

} // verus!
