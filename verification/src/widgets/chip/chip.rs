//! Toggle chip whose border and focus outline are optional strokes.
use vstd::prelude::*;

use crate::focus::FocusId;
use crate::text::TextStyle;
use crate::types::{Color, Outline, Stroke};
use crate::widget::{InputInfo, LayoutInfo};

pub mod raw;

verus! {

/// Visual configuration for a chip.
#[derive(Debug, Clone, Copy, PartialEq)]
pub struct ChipStyle<L> {
    pub height: L,
    pub pad_x: L,
    pub text_style: TextStyle<L>,
    pub background: Color<L>,
    pub active_bg: Color<L>,
    pub border: Option<Stroke<L>>,
    pub text: Color<L>,
    pub active_text: Color<L>,
    pub focus: Option<Outline<L>>,
    pub disabled_alpha: L,
}

/// State a chip keeps between frames.
#[derive(Debug, Clone, Copy, PartialEq, Eq, Default)]
pub struct ChipState {
    pub checked: bool,
    /// True if the mouse was pressed while hovering this chip, until the mouse is released.
    pub is_active: bool,
    pub space_is_active: bool,
    pub focus_id: FocusId,
}

/// What a chip reports after a frame.
#[derive(Debug, Clone, Copy, PartialEq)]
pub struct ChipResult<L> {
    pub layout: LayoutInfo<L>,
    pub input: InputInfo,
    pub focused: bool,
}

/// A complete chip description.
#[derive(Debug, Clone, Copy, PartialEq)]
pub struct ChipSpec<'a, L> {
    pub text: &'a str,
    pub style: ChipStyle<L>,
    pub disabled: bool,
}

impl<'a, L> ChipSpec<'a, L> {
    pub fn text(self, text: &'a str) -> (s: Self)
        ensures
            s == (ChipSpec { text, ..self }),
    {
        ChipSpec { text, ..self }
    }

    pub fn style(self, style: ChipStyle<L>) -> (s: Self)
        ensures
            s == (ChipSpec { style, ..self }),
    {
        ChipSpec { style, ..self }
    }

    pub fn disabled(self, disabled: bool) -> (s: Self)
        ensures
            s == (ChipSpec { disabled, ..self }),
    {
        ChipSpec { disabled, ..self }
    }
}

impl<'a, L> ChipSpec<'a, L> {
    /// An enabled chip labelled `text`, drawn in `theme_style`, the style
    /// the theme gives a chip.
    pub fn new_from_theme(text: &'a str, theme_style: ChipStyle<L>) -> (s: Self)
        ensures
            s == (ChipSpec { text, style: theme_style, disabled: false }),
    {
        ChipSpec { text, style: theme_style, disabled: false }
    }
}

} // verus!
