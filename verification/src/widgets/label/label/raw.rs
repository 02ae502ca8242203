//! Per-phase label functions.
use vstd::prelude::*;

use super::LabelStyle;
use crate::layout::{SizeOffer, SizeRequest};
use crate::types::{Layer, Rect, Vec2};

verus! {

/// Everything the label needs for one frame once layout has placed it.
#[derive(Debug, Clone, Copy, PartialEq)]
pub struct LabelSpec<'a, L> {
    pub layer: Layer,
    pub rect: Rect<L>,
    pub text: &'a str,
    pub style: LabelStyle<L>,
}

/// What the label's size request depends on.
#[derive(Debug, Clone, Copy, PartialEq)]
pub struct LabelPreLayoutSpec<'a, L> {
    pub text: &'a str,
    pub style: LabelStyle<L>,
}

/// The label's size request.
#[derive(Debug, Clone, Copy, PartialEq)]
pub struct LabelPreLayoutResult<L> {
    pub size_request: SizeRequest<L>,
}

/// What the label reports after drawing.
#[derive(Debug, Clone, Copy, PartialEq)]
pub struct LabelResult<L> {
    pub content_bounds: Rect<L>,
}

/// The size this label requests: exactly the logical size of its text,
/// whatever the offer. `text_size` is the logical size the text backend
/// measured for `spec.text` in `spec.style.text_style` without bounds.
pub fn pre_layout_label<'a, L>(
    spec: &LabelPreLayoutSpec<'a, L>,
    offer: SizeOffer<L>,
    text_size: Vec2<L>,
) -> (r: LabelPreLayoutResult<L>)
    ensures
        r.size_request == (SizeRequest { preferred: Some(text_size) }),
{
    LabelPreLayoutResult { size_request: label_size_request(spec, offer, text_size) }
}

fn label_size_request<'a, L>(
    spec: &LabelPreLayoutSpec<'a, L>,
    _offer: SizeOffer<L>,
    text_size: Vec2<L>,
) -> (r: SizeRequest<L>)
    ensures
        r == (SizeRequest { preferred: Some(text_size) }),
{
    SizeRequest::preferred(text_size)
}

} // verus!
