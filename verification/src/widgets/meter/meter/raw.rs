//! Per-phase meter functions.
//!
//! A meter with `bars` bars shows at least one bar. Bar `i` is drawn in the
//! accent colour when it is the peak bar, in ink when `i` is below the lit
//! count, and in the unlit colour otherwise. The lit count and the peak bar
//! are the level and the peak scaled to the bar count and rounded.
use vstd::prelude::*;

use super::MeterStyle;
use crate::layout::SizeRequest;
use crate::types::{Color, Layer, Rect};

verus! {

/// Everything the meter needs to draw once layout has placed it.
#[derive(Debug, Clone, Copy, PartialEq)]
pub struct MeterSpec<L> {
    pub layer: Layer,
    pub rect: Rect<L>,
    /// Fill level from 0 to 1.
    pub value: L,
    pub style: MeterStyle<L>,
    /// Peak marker level from 0 to 1, if any.
    pub peak: Option<L>,
    /// Number of bars to display.
    pub bars: usize,
}

/// What the meter's size request depends on.
#[derive(Debug, Clone, Copy, PartialEq)]
pub struct MeterPreLayoutSpec<L> {
    pub style: MeterStyle<L>,
    /// Number of bars to display.
    pub bars: usize,
}

/// The meter's size request.
#[derive(Debug, Clone, Copy, PartialEq)]
pub struct MeterPreLayoutResult<L> {
    pub size_request: SizeRequest<L>,
}

/// What the meter reports after drawing: nothing.
#[derive(Debug, Clone, Copy, PartialEq)]
pub struct MeterResult {}

/// The number of bars a meter draws: its bar count, but at least one.
pub open spec fn shown_bars(bars: usize) -> int {
    if bars == 0 {
        1
    } else {
        bars as int
    }
}

/// The colour of bar `i` given the lit count and the peak bar.
pub open spec fn bar_color<L>(style: MeterStyle<L>, i: int, lit: int, peak_idx: Option<usize>) -> Color<L> {
    if peak_idx matches Some(p) && p == i {
        style.rust
    } else if i < lit {
        style.ink
    } else {
        style.unlit
    }
}

/// The colour of every bar, left to right.
pub fn meter_bar_colors<L: Copy>(
    style: &MeterStyle<L>,
    bars: usize,
    lit: usize,
    peak_idx: Option<usize>,
) -> (colors: Vec<Color<L>>)
    ensures
        colors@.len() == shown_bars(bars),
        forall|i: int|
            0 <= i < colors@.len() ==> colors@[i] == bar_color(*style, i, lit as int, peak_idx),
        // At least one bar, and exactly `bars` when there are any.
        bars > 0 ==> colors@.len() == bars,
        bars == 0 ==> colors@.len() == 1,
        // The peak bar is in the accent colour.
        forall|i: int|
            0 <= i < colors@.len() && peak_idx == Some(i as usize) ==> #[trigger] colors@[i]
                == style.rust,
        // Any other bar is in ink below the lit count and unlit from it on.
        forall|i: int|
            0 <= i < colors@.len() && peak_idx != Some(i as usize) && i < lit ==> #[trigger] colors@[i]
                == style.ink,
        forall|i: int|
            0 <= i < colors@.len() && peak_idx != Some(i as usize) && i >= lit ==> #[trigger] colors@[i]
                == style.unlit,
{
    let n = if bars == 0 {
        1
    } else {
        bars
    };
    let mut colors: Vec<Color<L>> = Vec::new();
    let mut i: usize = 0;
    while i < n
        invariant
            0 <= i <= n,
            n == shown_bars(bars),
            colors@.len() == i,
            forall|j: int| 0 <= j < i ==> colors@[j] == bar_color(*style, j, lit as int, peak_idx),
        decreases n - i,
    {
        let is_peak = match peak_idx {
            Some(p) => p == i,
            None => false,
        };
        let color = if is_peak {
            style.rust
        } else if i < lit {
            style.ink
        } else {
            style.unlit
        };
        colors.push(color);
        i += 1;
    }
    colors
}

/// Without a peak marker, bar `i` is in ink exactly when it is below the
/// lit count, so a meter whose lit count covers every bar shows no unlit bar.
pub proof fn lemma_no_peak_lit_prefix<L>(style: MeterStyle<L>, i: int, lit: int)
    ensures
        bar_color(style, i, lit, None) == if i < lit {
            style.ink
        } else {
            style.unlit
        },
{
}

/// The peak bar shows the accent colour whether or not it is lit, and every
/// other bar keeps its lit or unlit colour.
pub proof fn lemma_peak_overrides_only_its_bar<L>(
    style: MeterStyle<L>,
    i: int,
    lit: int,
    p: usize,
)
    ensures
        i == p ==> bar_color(style, i, lit, Some(p)) == style.rust,
        i != p ==> bar_color(style, i, lit, Some(p)) == bar_color(style, i, lit, None),
{
}

} // verus!
