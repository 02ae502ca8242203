//! Divider widget drawn as a line of a given colour and width.
use vstd::prelude::*;

use crate::theme::Theme;
use crate::types::{Color, Rect};
use crate::widget::LayoutInfo;

pub mod divider;
pub mod raw;

verus! {

/// What a divider reports after a frame.
#[derive(Debug, Clone, Copy, PartialEq)]
pub struct DividerResult<L> {
    pub layout: LayoutInfo<L>,
}

/// Builder for [`raw::DividerSpec`]. The width always has a value; colour
/// and rect are set by the caller or, for the colour, by the theme.
#[derive(Debug, Clone, Copy, PartialEq)]
pub struct DividerSpecBuilder<L> {
    pub color: Option<Color<L>>,
    pub width: L,
    pub rect: Option<Rect<L>>,
}

impl<L> DividerSpecBuilder<L> {
    /// The builder after [`DividerSpecBuilder::defaults_from_theme`].
    pub open spec fn spec_defaults_from_theme(self, theme: Theme<L>) -> Self {
        DividerSpecBuilder {
            color: match self.color {
                Some(c) => Some(c),
                None => Some(theme.line),
            },
            ..self
        }
    }

    pub fn color(self, color: Color<L>) -> (b: Self)
        ensures
            b == (DividerSpecBuilder { color: Some(color), ..self }),
    {
        DividerSpecBuilder { color: Some(color), ..self }
    }

    pub fn width(self, width: L) -> (b: Self)
        ensures
            b == (DividerSpecBuilder { width, ..self }),
    {
        DividerSpecBuilder { width, ..self }
    }

    /// Sets the bounding rectangle.
    pub fn rect(self, rect: Rect<L>) -> (b: Self)
        ensures
            b == (DividerSpecBuilder { rect: Some(rect), ..self }),
    {
        DividerSpecBuilder { rect: Some(rect), ..self }
    }

    /// The raw spec; rect and colour must both have been set.
    pub fn build(self) -> (spec: raw::DividerSpec<L>)
        requires
            self.rect is Some,
            self.color is Some,
        ensures
            Some(spec.rect) == self.rect,
            Some(spec.color) == self.color,
            spec.width == self.width,
    {
        raw::DividerSpec { rect: self.rect.unwrap(), color: self.color.unwrap(), width: self.width }
    }
}

impl<L: Copy> DividerSpecBuilder<L> {
    /// Fills an unset colour with the theme's line colour.
    pub fn defaults_from_theme(self, theme: &Theme<L>) -> (b: Self)
        ensures
            b == self.spec_defaults_from_theme(*theme),
    {
        let color = match self.color {
            Some(c) => Some(c),
            None => Some(theme.line),
        };
        DividerSpecBuilder { color, ..self }
    }
}

} // verus!
