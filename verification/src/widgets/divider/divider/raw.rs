//! Per-phase divider functions.
use vstd::prelude::*;

use crate::layout::{SizeOffer, SizeRequest};
use crate::types::{Layer, Rect, Stroke};

verus! {

/// Everything the divider needs to draw once layout has placed it.
#[derive(Debug, Clone, Copy, PartialEq)]
pub struct DividerSpec<L> {
    pub layer: Layer,
    pub rect: Rect<L>,
    pub stroke: Stroke<L>,
}

/// What the divider's size request depends on: nothing.
#[derive(Debug, Clone, Copy, PartialEq)]
pub struct DividerPreLayoutSpec {}

/// The divider's size request.
#[derive(Debug, Clone, Copy, PartialEq)]
pub struct DividerPreLayoutResult<L> {
    pub size_request: SizeRequest<L>,
}

/// What the divider reports after drawing: nothing.
#[derive(Debug, Clone, Copy, PartialEq)]
pub struct DividerResult {}

/// A divider has no inherent size: it requests the unknown size, whatever
/// the offer.
pub fn pre_layout_divider<L>(spec: &DividerPreLayoutSpec, offer: SizeOffer<L>) -> (r:
    DividerPreLayoutResult<L>)
    ensures
        r.size_request == SizeRequest::<L>::spec_unknown(),
{
    DividerPreLayoutResult { size_request: divider_size_request(spec, offer) }
}

fn divider_size_request<L>(spec: &DividerPreLayoutSpec, _offer: SizeOffer<L>) -> (r: SizeRequest<
    L,
>)
    ensures
        r == SizeRequest::<L>::spec_unknown(),
{
    SizeRequest::unknown()
}

} // verus!
