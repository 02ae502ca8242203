//! Per-phase divider functions.
use vstd::prelude::*;

use crate::types::{Color, Rect};

verus! {

/// Everything the divider needs to draw once layout has placed it.
#[derive(Debug, Clone, Copy, PartialEq)]
pub struct DividerSpec<L> {
    pub rect: Rect<L>,
    pub color: Color<L>,
    pub width: L,
}

} // verus!
