//! Results shared by all widgets: interaction flags and resolved layout.
use vstd::prelude::*;

use crate::types::Rect;

verus! {

/// Pointer interaction observed by a widget this frame.
#[derive(Debug, Clone, Copy, PartialEq, Eq, Default)]
pub struct InputInfo {
    pub hovered: bool,
    pub pressed: bool,
    pub clicked: bool,
}

/// The bounds a widget was given and the part of it that holds content.
#[derive(Debug, Clone, Copy, PartialEq)]
pub struct LayoutInfo<L> {
    pub bounds: Rect<L>,
    pub content_bounds: Rect<L>,
}

impl<L> LayoutInfo<L> {
    pub fn new(bounds: Rect<L>, content_bounds: Rect<L>) -> (i: Self)
        ensures
            i == (LayoutInfo { bounds, content_bounds }),
    {
        LayoutInfo { bounds, content_bounds }
    }
}

impl<L: Copy> LayoutInfo<L> {
    /// Layout whose content fills its whole bounds.
    pub fn tight(bounds: Rect<L>) -> (i: Self)
        ensures
            i == (LayoutInfo { bounds, content_bounds: bounds }),
    {
        LayoutInfo { bounds, content_bounds: bounds }
    }
}

} // verus!
