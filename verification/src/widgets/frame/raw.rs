//! Per-phase frame functions.
use vstd::prelude::*;

use super::FrameStyle;
use crate::draw::DrawCommands;
use crate::types::Rect;

verus! {

/// Everything the frame needs to draw once layout has placed it.
#[derive(Debug, Clone, Copy, PartialEq)]
pub struct FrameSpec<L> {
    pub rect: Rect<L>,
    pub style: FrameStyle<L>,
}

/// The frame's commands and the area left for its children.
#[derive(Debug, Clone, PartialEq)]
pub struct FrameResult<L> {
    pub draw: DrawCommands<L>,
    pub content_bounds: Rect<L>,
}

} // verus!
