//! Per-phase label functions.
use vstd::prelude::*;

use super::LabelStyle;
use crate::layout::IntrinsicSize;
use crate::types::{Layer, Rect, Vec2};

verus! {

/// Everything the label needs for one frame once layout has placed it.
#[derive(Debug, Clone, Copy, PartialEq)]
pub struct LabelSpec<'a, L> {
    pub layer: Layer,
    pub rect: Rect<L>,
    pub text: &'a str,
    pub style: LabelStyle<L>,
}

/// What the label's intrinsic size depends on.
#[derive(Debug, Clone, Copy, PartialEq)]
pub struct LabelCalcIntrinsicSizeSpec<'a, L> {
    pub text: &'a str,
    pub style: LabelStyle<L>,
}

/// What the label reports after drawing.
#[derive(Debug, Clone, Copy, PartialEq)]
pub struct LabelResult<L> {
    pub content_bounds: Rect<L>,
}

/// A label prefers exactly the logical size of its text. `text_size` is the
/// logical size the text backend measured for `spec.text` in
/// `spec.style.text_style` without bounds.
pub fn calc_label_intrinsic_size<'a, L>(
    spec: &LabelCalcIntrinsicSizeSpec<'a, L>,
    text_size: Vec2<L>,
) -> (r: IntrinsicSize<L>)
    ensures
        r == (IntrinsicSize { preferred: Some(text_size) }),
{
    IntrinsicSize::preferred(text_size)
}

} // verus!
