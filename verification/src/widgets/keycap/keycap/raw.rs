//! Per-phase keycap functions.
use vstd::prelude::*;

use super::KeycapStyle;
use crate::layout::{SizeOffer, SizeRequest};
use crate::types::{Layer, Rect, Vec2};

verus! {

/// Everything the keycap needs to draw once layout has placed it.
#[derive(Debug, Clone, Copy, PartialEq)]
pub struct KeycapSpec<'a, L> {
    pub layer: Layer,
    pub rect: Rect<L>,
    pub text: &'a str,
    pub style: KeycapStyle<L>,
}

/// What the keycap's size request depends on.
#[derive(Debug, Clone, Copy, PartialEq)]
pub struct KeycapPreLayoutSpec<'a, L> {
    pub text: &'a str,
    pub style: KeycapStyle<L>,
}

/// The keycap's size request.
#[derive(Debug, Clone, Copy, PartialEq)]
pub struct KeycapPreLayoutResult<L> {
    pub size_request: SizeRequest<L>,
}

/// What the keycap reports after drawing.
#[derive(Debug, Clone, Copy, PartialEq)]
pub struct KeycapResult<L> {
    pub content_bounds: Rect<L>,
}

/// The size this keycap requests: exactly the logical size of its text,
/// whatever the offer. `text_size` is the logical size the text backend
/// measured for `spec.text` in `spec.style.text_style` without bounds.
pub fn pre_layout_keycap<'a, L>(
    spec: &KeycapPreLayoutSpec<'a, L>,
    offer: SizeOffer<L>,
    text_size: Vec2<L>,
) -> (r: KeycapPreLayoutResult<L>)
    ensures
        r.size_request == (SizeRequest { preferred: Some(text_size) }),
{
    KeycapPreLayoutResult { size_request: keycap_size_request(spec, offer, text_size) }
}

fn keycap_size_request<'a, L>(
    spec: &KeycapPreLayoutSpec<'a, L>,
    _offer: SizeOffer<L>,
    text_size: Vec2<L>,
) -> (r: SizeRequest<L>)
    ensures
        r == (SizeRequest { preferred: Some(text_size) }),
{
    SizeRequest::preferred(text_size)
}

/// Whether the keycap draws its text: only when it has some.
pub fn keycap_draws_text<'a, L>(spec: &KeycapSpec<'a, L>) -> (draws: bool)
    ensures
        draws == (spec.text@.len() > 0),
{
    !spec.text.is_empty()
}

} // verus!
