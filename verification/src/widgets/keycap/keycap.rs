//! Keycap widget whose border is an optional stroke.
use vstd::prelude::*;

use crate::text::{TextContentPlacement, TextStyle};
use crate::types::{Color, Stroke};
use crate::widget::LayoutInfo;

pub mod raw;

verus! {

/// Visual configuration for a keycap.
#[derive(Debug, Clone, Copy, PartialEq)]
pub struct KeycapStyle<L> {
    pub background: Color<L>,
    pub shadow: Color<L>,
    pub shadow_offset: L,
    pub shadow_height: L,
    pub border: Option<Stroke<L>>,
    pub text_color: Color<L>,
    pub text_style: TextStyle<L>,
    pub content_placement: TextContentPlacement,
}

/// What a keycap reports after a frame.
#[derive(Debug, Clone, Copy, PartialEq)]
pub struct KeycapResult<L> {
    pub layout: LayoutInfo<L>,
}

/// A complete keycap description.
#[derive(Debug, Clone, Copy, PartialEq)]
pub struct KeycapSpec<'a, L> {
    pub text: &'a str,
    pub style: KeycapStyle<L>,
}

/// Builder for [`KeycapSpec`].
#[derive(Debug, Clone, Copy, PartialEq)]
pub struct KeycapSpecBuilder<'a, L> {
    pub text: Option<&'a str>,
    pub style: Option<KeycapStyle<L>>,
}

impl<'a, L> KeycapSpecBuilder<'a, L> {
    pub fn new() -> (b: Self)
        ensures
            b.text is None,
            b.style is None,
    {
        KeycapSpecBuilder { text: None, style: None }
    }

    pub fn text(self, text: &'a str) -> (b: Self)
        ensures
            b.text == Some(text),
            b.style == self.style,
    {
        KeycapSpecBuilder { text: Some(text), style: self.style }
    }

    pub fn style(self, style: KeycapStyle<L>) -> (b: Self)
        ensures
            b.text == self.text,
            b.style == Some(style),
    {
        KeycapSpecBuilder { text: self.text, style: Some(style) }
    }

    /// The spec; text and style must both have been set.
    pub fn build(self) -> (spec: KeycapSpec<'a, L>)
        requires
            self.text is Some,
            self.style is Some,
        ensures
            Some(spec.text) == self.text,
            Some(spec.style) == self.style,
    {
        KeycapSpec { text: self.text.unwrap(), style: self.style.unwrap() }
    }
}

impl<'a, L> KeycapSpecBuilder<'a, L> {
    /// Fills an unset style with `theme_style`, the style the theme gives
    /// a keycap (it is computed in floating point, outside this library); a
    /// style the caller set is kept, and every other field is unchanged.
    pub fn defaults_from_theme(self, theme_style: KeycapStyle<L>) -> (b: Self)
        ensures
            b == (KeycapSpecBuilder {
                style: if self.style is Some {
                    self.style
                } else {
                    Some(theme_style)
                },
                ..self
            }),
    {
        if self.style.is_some() {
            self
        } else {
            KeycapSpecBuilder { style: Some(theme_style), ..self }
        }
    }
}

} // verus!
