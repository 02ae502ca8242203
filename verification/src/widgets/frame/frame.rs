//! Frame container whose border is an optional stroke.
//!
//! A frame is drawn in two steps around its children: the begin step pushes
//! a background and a clip as placeholders and records where they are; the
//! end step, once the final bounds are known, patches them in place and
//! closes the clip.
use vstd::prelude::*;

use crate::types::{Color, Stroke};

pub mod raw;

verus! {

/// Visual configuration for a frame (bordered background rectangle).
#[derive(Debug, Clone, Copy, PartialEq)]
pub struct FrameStyle<L> {
    pub background: Color<L>,
    pub border: Option<Stroke<L>>,
    /// Padding between the border and the content area.
    pub padding: L,
}

/// A complete frame description.
#[derive(Debug, Clone, Copy, PartialEq)]
pub struct FrameSpec<L> {
    pub style: FrameStyle<L>,
}

impl<L> FrameSpec<L> {
    pub fn style(self, style: FrameStyle<L>) -> (s: Self)
        ensures
            s.style == style,
    {
        FrameSpec { style }
    }
}

} // verus!
