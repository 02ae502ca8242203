//! Frame container whose border is a plain colour and width.
use vstd::prelude::*;

use crate::types::{Color, Rect};

pub mod frame;
pub mod raw;

verus! {

/// Visual configuration for a frame (bordered background rectangle).
#[derive(Debug, Clone, Copy, PartialEq)]
pub struct FrameStyle<L> {
    pub background: Color<L>,
    pub border: Color<L>,
    pub border_width: L,
    /// Padding between the border and the content area.
    pub padding: L,
}

/// Builder for [`raw::FrameSpec`].
#[derive(Debug, Clone, Copy, PartialEq)]
pub struct FrameSpecBuilder<L> {
    pub rect: Option<Rect<L>>,
    pub style: Option<FrameStyle<L>>,
}

impl<L> FrameSpecBuilder<L> {
    pub fn new() -> (b: Self)
        ensures
            b.rect is None,
            b.style is None,
    {
        FrameSpecBuilder { rect: None, style: None }
    }

    pub fn style(self, style: FrameStyle<L>) -> (b: Self)
        ensures
            b.rect == self.rect,
            b.style == Some(style),
    {
        FrameSpecBuilder { rect: self.rect, style: Some(style) }
    }

    /// Sets the bounding rectangle.
    pub fn rect(self, rect: Rect<L>) -> (b: Self)
        ensures
            b.rect == Some(rect),
            b.style == self.style,
    {
        FrameSpecBuilder { rect: Some(rect), style: self.style }
    }

    /// The raw spec; rect and style must both have been set.
    pub fn build(self) -> (spec: raw::FrameSpec<L>)
        requires
            self.rect is Some,
            self.style is Some,
        ensures
            Some(spec.rect) == self.rect,
            Some(spec.style) == self.style,
    {
        raw::FrameSpec { rect: self.rect.unwrap(), style: self.style.unwrap() }
    }
}

impl<L> FrameSpecBuilder<L> {
    /// Fills an unset style with `theme_style`, the style the theme gives
    /// a frame (it is computed in floating point, outside this library); a
    /// style the caller set is kept, and every other field is unchanged.
    pub fn defaults_from_theme(self, theme_style: FrameStyle<L>) -> (b: Self)
        ensures
            b == (FrameSpecBuilder {
                style: if self.style is Some {
                    self.style
                } else {
                    Some(theme_style)
                },
                ..self
            }),
    {
        if self.style.is_some() {
            self
        } else {
            FrameSpecBuilder { style: Some(theme_style), ..self }
        }
    }
}

} // verus!
