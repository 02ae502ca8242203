//! Push button whose border and focus outline are optional strokes.
use vstd::prelude::*;

use crate::focus::FocusId;
use crate::text::{TextContentPlacement, TextStyle};
use crate::types::{Color, Outline, Stroke};
use crate::widget::{InputInfo, LayoutInfo};

pub mod raw;

verus! {

/// Visual configuration for a button.
#[derive(Debug, Clone, Copy, PartialEq)]
pub struct ButtonStyle<L> {
    pub background: Color<L>,
    pub hovered: Color<L>,
    pub pressed: Color<L>,
    pub border: Option<Stroke<L>>,
    pub focus: Option<Outline<L>>,
    pub text_style: TextStyle<L>,
    /// Placement of the prepared text block inside the padded button content rect.
    pub content_placement: TextContentPlacement,
    pub text_color: Color<L>,
    pub disabled_alpha: L,
    /// Horizontal padding each side of the label, used for the preferred width request.
    pub pad_x: L,
    /// Vertical padding above/below the label, used for the preferred height request.
    pub pad_y: L,
    /// Minimum requested height; the preferred height is the larger of this
    /// and the padded text height.
    pub min_height: L,
}

/// State a button keeps between frames.
#[derive(Debug, Clone, Copy, PartialEq, Eq, Default)]
pub struct ButtonState {
    /// True if the mouse was pressed while hovering this button, until the mouse is released.
    pub is_active: bool,
    /// True if the spacebar was pressed while this button was focused, until space or focus is lost.
    pub space_is_active: bool,
    /// Globally unique ID for tracking keyboard focus.
    pub focus_id: FocusId,
}

/// What a button reports after a frame.
#[derive(Debug, Clone, Copy, PartialEq)]
pub struct ButtonResult<L> {
    pub layout: LayoutInfo<L>,
    pub input: InputInfo,
    pub focused: bool,
}

/// A complete button description.
#[derive(Debug, Clone, Copy, PartialEq)]
pub struct ButtonSpec<'a, L> {
    pub text: &'a str,
    pub style: ButtonStyle<L>,
    pub disabled: bool,
}

/// Builder for [`ButtonSpec`].
#[derive(Debug, Clone, Copy, PartialEq)]
pub struct ButtonSpecBuilder<'a, L> {
    pub text: Option<&'a str>,
    pub style: Option<ButtonStyle<L>>,
    pub disabled: Option<bool>,
}

impl<'a, L> ButtonSpecBuilder<'a, L> {
    pub fn new() -> (b: Self)
        ensures
            b.text is None,
            b.style is None,
            b.disabled is None,
    {
        ButtonSpecBuilder { text: None, style: None, disabled: None }
    }

    pub fn text(self, text: &'a str) -> (b: Self)
        ensures
            b == (ButtonSpecBuilder { text: Some(text), ..self }),
    {
        ButtonSpecBuilder { text: Some(text), ..self }
    }

    pub fn style(self, style: ButtonStyle<L>) -> (b: Self)
        ensures
            b == (ButtonSpecBuilder { style: Some(style), ..self }),
    {
        ButtonSpecBuilder { style: Some(style), ..self }
    }

    pub fn disabled(self, disabled: bool) -> (b: Self)
        ensures
            b == (ButtonSpecBuilder { disabled: Some(disabled), ..self }),
    {
        ButtonSpecBuilder { disabled: Some(disabled), ..self }
    }

    /// The spec, enabled unless set otherwise; text and style must both have
    /// been set.
    pub fn build(self) -> (spec: ButtonSpec<'a, L>)
        requires
            self.text is Some,
            self.style is Some,
        ensures
            Some(spec.text) == self.text,
            Some(spec.style) == self.style,
            spec.disabled == (self.disabled == Some(true)),
    {
        let disabled = match self.disabled {
            Some(d) => d,
            None => false,
        };
        ButtonSpec { text: self.text.unwrap(), style: self.style.unwrap(), disabled }
    }
}

impl<'a, L> ButtonSpecBuilder<'a, L> {
    /// Fills an unset style with `theme_style`, the style the theme gives
    /// a button (it is computed in floating point, outside this library); a
    /// style the caller set is kept, and every other field is unchanged.
    pub fn defaults_from_theme(self, theme_style: ButtonStyle<L>) -> (b: Self)
        ensures
            b == (ButtonSpecBuilder {
                style: if self.style is Some {
                    self.style
                } else {
                    Some(theme_style)
                },
                ..self
            }),
    {
        if self.style.is_some() {
            self
        } else {
            ButtonSpecBuilder { style: Some(theme_style), ..self }
        }
    }
}

} // verus!
