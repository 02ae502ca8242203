//! Per-phase colour swatch functions.
use vstd::prelude::*;

use crate::layout::{SizeOffer, SizeRequest};
use crate::types::{Color, Layer, Rect};

verus! {

/// Everything the swatch needs to draw once layout has placed it.
#[derive(Debug, Clone, Copy, PartialEq)]
pub struct ColorSwatchSpec<L> {
    pub layer: Layer,
    pub rect: Rect<L>,
    pub color: Color<L>,
    /// Border colour drawn around the swatch.
    pub border: Color<L>,
}

/// What the swatch's size request depends on: nothing.
#[derive(Debug, Clone, Copy, PartialEq)]
pub struct ColorSwatchPreLayoutSpec {}

/// The swatch's size request.
#[derive(Debug, Clone, Copy, PartialEq)]
pub struct ColorSwatchPreLayoutResult<L> {
    pub size_request: SizeRequest<L>,
}

/// What the swatch reports after drawing.
#[derive(Debug, Clone, Copy, PartialEq)]
pub struct ColorSwatchResult<L> {
    pub content_bounds: Rect<L>,
}

/// A swatch has no inherent size: it requests the unknown size, whatever
/// the offer.
pub fn pre_layout_color_swatch<L>(spec: &ColorSwatchPreLayoutSpec, offer: SizeOffer<L>) -> (r:
    ColorSwatchPreLayoutResult<L>)
    ensures
        r.size_request == SizeRequest::<L>::spec_unknown(),
{
    ColorSwatchPreLayoutResult { size_request: color_swatch_size_request(spec, offer) }
}

fn color_swatch_size_request<L>(spec: &ColorSwatchPreLayoutSpec, _offer: SizeOffer<L>) -> (r:
    SizeRequest<L>)
    ensures
        r == SizeRequest::<L>::spec_unknown(),
{
    SizeRequest::unknown()
}

} // verus!
