//! Colour swatch widget whose border is a plain colour.
//!
//! The swatch colour is what the widget shows, so it never comes from a
//! theme; only the border does.
use vstd::prelude::*;

use crate::theme::Theme;
use crate::types::Color;
use crate::widget::LayoutInfo;

pub mod color_swatch;
pub mod raw;

verus! {

/// What a colour swatch reports after a frame.
#[derive(Debug, Clone, Copy, PartialEq)]
pub struct ColorSwatchResult<L> {
    pub layout: LayoutInfo<L>,
}

/// A complete colour swatch description.
#[derive(Debug, Clone, Copy, PartialEq)]
pub struct ColorSwatchSpec<L> {
    pub color: Color<L>,
    pub border: Color<L>,
}

/// Builder for [`ColorSwatchSpec`].
#[derive(Debug, Clone, Copy, PartialEq)]
pub struct ColorSwatchSpecBuilder<L> {
    pub color: Option<Color<L>>,
    pub border: Option<Color<L>>,
}

impl<L> ColorSwatchSpecBuilder<L> {
    /// The builder after [`ColorSwatchSpecBuilder::defaults_from_theme`].
    pub open spec fn spec_defaults_from_theme(self, theme: Theme<L>) -> Self {
        ColorSwatchSpecBuilder {
            color: self.color,
            border: match self.border {
                Some(b) => Some(b),
                None => Some(theme.ink),
            },
        }
    }

    pub fn new() -> (b: Self)
        ensures
            b.color is None,
            b.border is None,
    {
        ColorSwatchSpecBuilder { color: None, border: None }
    }

    pub fn color(self, color: Color<L>) -> (b: Self)
        ensures
            b.color == Some(color),
            b.border == self.border,
    {
        ColorSwatchSpecBuilder { color: Some(color), border: self.border }
    }

    pub fn border(self, border: Color<L>) -> (b: Self)
        ensures
            b.color == self.color,
            b.border == Some(border),
    {
        ColorSwatchSpecBuilder { color: self.color, border: Some(border) }
    }

    /// The spec; colour and border must both have been set.
    pub fn build(self) -> (spec: ColorSwatchSpec<L>)
        requires
            self.color is Some,
            self.border is Some,
        ensures
            Some(spec.color) == self.color,
            Some(spec.border) == self.border,
    {
        ColorSwatchSpec { color: self.color.unwrap(), border: self.border.unwrap() }
    }
}

impl<L: Copy> ColorSwatchSpecBuilder<L> {
    /// Fills an unset border with the theme's ink colour. The swatch colour
    /// is left as it is: it is what the swatch indicates.
    pub fn defaults_from_theme(self, theme: &Theme<L>) -> (b: Self)
        ensures
            b == self.spec_defaults_from_theme(*theme),
    {
        let border = match self.border {
            Some(b) => Some(b),
            None => Some(theme.ink),
        };
        ColorSwatchSpecBuilder { color: self.color, border }
    }
}

/// Theme defaults never supply the swatch colour: a builder without a
/// colour still has none after filling defaults, and one with a colour keeps it.
pub proof fn lemma_swatch_color_never_from_theme<L>(b: ColorSwatchSpecBuilder<L>, theme: Theme<L>)
    ensures
        b.spec_defaults_from_theme(theme).color == b.color,
        b.spec_defaults_from_theme(theme).border is Some,
        b.spec_defaults_from_theme(theme).spec_defaults_from_theme(theme)
            == b.spec_defaults_from_theme(theme),
{
}

} // verus!
