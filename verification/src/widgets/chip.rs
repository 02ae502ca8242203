//! Toggle chip whose border and focus ring are plain colours and widths.
use vstd::prelude::*;

use crate::focus::FocusId;
use crate::text::TextStyle;
use crate::types::Color;
use crate::widget::{InputInfo, LayoutInfo};

pub mod chip;
pub mod raw;

verus! {

/// Visual configuration for a chip.
#[derive(Debug, Clone, Copy, PartialEq)]
pub struct ChipStyle<L> {
    pub height: L,
    pub pad_x: L,
    pub text_style: TextStyle<L>,
    pub background: Color<L>,
    pub active_bg: Color<L>,
    pub border: Color<L>,
    pub text: Color<L>,
    pub active_text: Color<L>,
    pub focus: Color<L>,
    pub border_width: L,
    pub focus_width: L,
    pub focus_offset: L,
    pub disabled_alpha: L,
}

/// State a chip keeps between frames.
#[derive(Debug, Clone, Copy, PartialEq, Eq, Default)]
pub struct ChipState {
    pub checked: bool,
    /// True while the space bar, pressed with the chip focused, is held.
    pub space_is_active: bool,
    pub focus_id: FocusId,
}

/// What a chip reports after a frame.
#[derive(Debug, Clone, Copy, PartialEq)]
pub struct ChipResult<L> {
    pub layout: LayoutInfo<L>,
    pub input: InputInfo,
    pub focused: bool,
}

/// A complete chip description.
#[derive(Debug, Clone, Copy, PartialEq)]
pub struct ChipSpec<'a, L> {
    pub text: &'a str,
    pub style: ChipStyle<L>,
    pub disabled: bool,
}

/// Builder for [`ChipSpec`].
#[derive(Debug, Clone, Copy, PartialEq)]
pub struct ChipSpecBuilder<'a, L> {
    pub text: Option<&'a str>,
    pub style: Option<ChipStyle<L>>,
    pub disabled: Option<bool>,
}

impl<'a, L> ChipSpecBuilder<'a, L> {
    pub fn new() -> (b: Self)
        ensures
            b.text is None,
            b.style is None,
            b.disabled is None,
    {
        ChipSpecBuilder { text: None, style: None, disabled: None }
    }

    pub fn text(self, text: &'a str) -> (b: Self)
        ensures
            b == (ChipSpecBuilder { text: Some(text), ..self }),
    {
        ChipSpecBuilder { text: Some(text), ..self }
    }

    pub fn style(self, style: ChipStyle<L>) -> (b: Self)
        ensures
            b == (ChipSpecBuilder { style: Some(style), ..self }),
    {
        ChipSpecBuilder { style: Some(style), ..self }
    }

    pub fn disabled(self, disabled: bool) -> (b: Self)
        ensures
            b == (ChipSpecBuilder { disabled: Some(disabled), ..self }),
    {
        ChipSpecBuilder { disabled: Some(disabled), ..self }
    }

    /// The spec, enabled unless set otherwise; text and style must both have
    /// been set.
    pub fn build(self) -> (spec: ChipSpec<'a, L>)
        requires
            self.text is Some,
            self.style is Some,
        ensures
            Some(spec.text) == self.text,
            Some(spec.style) == self.style,
            spec.disabled == (self.disabled == Some(true)),
    {
        let disabled = match self.disabled {
            Some(d) => d,
            None => false,
        };
        ChipSpec { text: self.text.unwrap(), style: self.style.unwrap(), disabled }
    }
}

impl<'a, L> ChipSpecBuilder<'a, L> {
    /// Fills an unset style with `theme_style`, the style the theme gives
    /// a chip (it is computed in floating point, outside this library); a
    /// style the caller set is kept, and every other field is unchanged.
    pub fn defaults_from_theme(self, theme_style: ChipStyle<L>) -> (b: Self)
        ensures
            b == (ChipSpecBuilder {
                style: if self.style is Some {
                    self.style
                } else {
                    Some(theme_style)
                },
                ..self
            }),
    {
        if self.style.is_some() {
            self
        } else {
            ChipSpecBuilder { style: Some(theme_style), ..self }
        }
    }
}

} // verus!
