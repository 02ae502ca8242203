//! What a widget asks of its parent's layout, and what the layout offers.
use vstd::prelude::*;

use crate::types::Vec2;

verus! {

/// The bound a layout places on one axis of the space it offers a child.
#[derive(Debug, Clone, Copy, PartialEq)]
pub enum AxisBound<L> {
    /// Any extent is acceptable.
    Unbounded,
    /// The extent may not exceed the value.
    AtMost(L),
    /// The extent is fixed to the value.
    Exact(L),
}

/// The space a parent layout offers to a child, per axis.
#[derive(Debug, Clone, Copy, PartialEq)]
pub struct SizeOffer<L> {
    pub width: AxisBound<L>,
    pub height: AxisBound<L>,
}

impl<L> SizeOffer<L> {
    pub fn new(width: AxisBound<L>, height: AxisBound<L>) -> (o: Self)
        ensures
            o == (SizeOffer { width, height }),
    {
        SizeOffer { width, height }
    }

    /// The offer that bounds neither axis.
    pub fn unbounded() -> (o: Self)
        ensures
            o == (SizeOffer::<L> { width: AxisBound::Unbounded, height: AxisBound::Unbounded }),
    {
        SizeOffer { width: AxisBound::Unbounded, height: AxisBound::Unbounded }
    }
}

/// The size a widget asks its layout for.
#[derive(Debug, Clone, Copy, PartialEq)]
pub struct SizeRequest<L> {
    /// The preferred extent, or `None` when the widget has no inherent size.
    pub preferred: Option<Vec2<L>>,
}

impl<L> SizeRequest<L> {
    /// The request of a widget with no inherent size: it takes what it is given.
    pub open spec fn spec_unknown() -> Self {
        SizeRequest { preferred: None }
    }

    pub fn unknown() -> (r: Self)
        ensures
            r == Self::spec_unknown(),
    {
        SizeRequest { preferred: None }
    }

    pub fn preferred(size: Vec2<L>) -> (r: Self)
        ensures
            r == (SizeRequest { preferred: Some(size) }),
    {
        SizeRequest { preferred: Some(size) }
    }
}

/// The intrinsic size of a widget, as measured before layout.
#[derive(Debug, Clone, Copy, PartialEq)]
pub struct IntrinsicSize<L> {
    /// The preferred extent, or `None` when the widget has no inherent size.
    pub preferred: Option<Vec2<L>>,
}

impl<L> IntrinsicSize<L> {
    pub fn unknown() -> (r: Self)
        ensures
            r == (IntrinsicSize::<L> { preferred: None }),
    {
        IntrinsicSize { preferred: None }
    }

    pub fn preferred(size: Vec2<L>) -> (r: Self)
        ensures
            r == (IntrinsicSize { preferred: Some(size) }),
    {
        IntrinsicSize { preferred: Some(size) }
    }
}

} // verus!
