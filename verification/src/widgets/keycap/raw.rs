//! Per-phase keycap functions.
use vstd::prelude::*;

use super::KeycapStyle;
use crate::layout::SizeRequest;
use crate::types::{Layer, Rect, Vec2};

verus! {

/// Everything the keycap needs to draw once layout has placed it.
#[derive(Debug, Clone, Copy, PartialEq)]
pub struct KeycapSpec<'a, L> {
    pub layer: Layer,
    pub rect: Rect<L>,
    pub text: &'a str,
    pub style: KeycapStyle<L>,
}

/// What the keycap's size request depends on.
#[derive(Debug, Clone, Copy, PartialEq)]
pub struct KeycapCalcSizeRequestSpec<'a, L> {
    pub text: &'a str,
    pub style: KeycapStyle<L>,
}

/// What the keycap reports after drawing.
#[derive(Debug, Clone, Copy, PartialEq)]
pub struct KeycapResult<L> {
    pub content_bounds: Rect<L>,
}

/// A keycap requests exactly the logical size of its text. `text_size` is
/// the logical size the text backend measured for `spec.text` in
/// `spec.style.text_style` without bounds.
pub fn calc_keycap_intrinsic_size<'a, L>(
    spec: &KeycapCalcSizeRequestSpec<'a, L>,
    text_size: Vec2<L>,
) -> (r: SizeRequest<L>)
    ensures
        r == (SizeRequest { preferred: Some(text_size) }),
{
    SizeRequest::preferred(text_size)
}

} // verus!
