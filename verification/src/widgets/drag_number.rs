//! Drag number widget whose border and focus ring are plain colours and widths.
//!
//! A drag number shows a label and a value; dragging the pointer across it,
//! or pressing left and right while it is focused, changes the value.
use vstd::prelude::*;

use crate::focus::FocusId;
use crate::text::TextStyle;
use crate::types::Color;
use crate::widget::{InputInfo, LayoutInfo};

pub mod drag_number;
pub mod raw;

verus! {

/// Visual configuration for a drag number.
#[derive(Debug, Clone, Copy, PartialEq)]
pub struct DragNumberStyle<L> {
    pub height: L,
    pub text_pad_x: L,
    pub text_style: TextStyle<L>,
    pub background: Color<L>,
    pub border: Color<L>,
    pub focus: Color<L>,
    pub text_bg: Color<L>,
    pub active_text_bg: Color<L>,
    pub text_text: Color<L>,
    pub value_text: Color<L>,
    pub value_fill: Color<L>,
    pub border_width: L,
    pub focus_width: L,
    pub focus_offset: L,
    pub disabled_alpha: L,
}

/// State a drag number keeps between frames.
#[derive(Debug, Clone, Copy, PartialEq, Default)]
pub struct DragNumberState<L> {
    pub value: L,
    pub is_dragging: bool,
    /// Pointer x where the current drag began.
    pub drag_start_x: L,
    /// Value when the current drag began.
    pub drag_start_value: L,
    pub focus_id: FocusId,
}

/// What a drag number reports after a frame.
#[derive(Debug, Clone, Copy, PartialEq)]
pub struct DragNumberResult<L> {
    pub layout: LayoutInfo<L>,
    pub input: InputInfo,
    pub focused: bool,
}

/// A complete drag number description.
#[derive(Debug, Clone, Copy, PartialEq)]
pub struct DragNumberSpec<'a, L> {
    pub text: &'a str,
    pub style: DragNumberStyle<L>,
    pub min: L,
    pub max: L,
    pub disabled: bool,
}

/// Builder for [`DragNumberSpec`]. Unset bounds become 0 and 100 when the
/// spec is built.
#[derive(Debug, Clone, Copy, PartialEq)]
pub struct DragNumberSpecBuilder<'a, L> {
    pub text: Option<&'a str>,
    pub style: Option<DragNumberStyle<L>>,
    pub min: Option<L>,
    pub max: Option<L>,
    pub disabled: Option<bool>,
}

impl<'a, L> DragNumberSpecBuilder<'a, L> {
    pub fn new() -> (b: Self)
        ensures
            b == (DragNumberSpecBuilder::<'a, L> {
                text: None,
                style: None,
                min: None,
                max: None,
                disabled: None,
            }),
    {
        DragNumberSpecBuilder { text: None, style: None, min: None, max: None, disabled: None }
    }

    pub fn text(self, text: &'a str) -> (b: Self)
        ensures
            b == (DragNumberSpecBuilder { text: Some(text), ..self }),
    {
        DragNumberSpecBuilder { text: Some(text), ..self }
    }

    pub fn style(self, style: DragNumberStyle<L>) -> (b: Self)
        ensures
            b == (DragNumberSpecBuilder { style: Some(style), ..self }),
    {
        DragNumberSpecBuilder { style: Some(style), ..self }
    }

    pub fn min(self, min: L) -> (b: Self)
        ensures
            b == (DragNumberSpecBuilder { min: Some(min), ..self }),
    {
        DragNumberSpecBuilder { min: Some(min), ..self }
    }

    pub fn max(self, max: L) -> (b: Self)
        ensures
            b == (DragNumberSpecBuilder { max: Some(max), ..self }),
    {
        DragNumberSpecBuilder { max: Some(max), ..self }
    }

    pub fn disabled(self, disabled: bool) -> (b: Self)
        ensures
            b == (DragNumberSpecBuilder { disabled: Some(disabled), ..self }),
    {
        DragNumberSpecBuilder { disabled: Some(disabled), ..self }
    }
}

impl<'a, L> DragNumberSpecBuilder<'a, L> {
    /// Fills an unset style with `theme_style`, the style the theme gives
    /// a drag number (it is computed in floating point, outside this library); a
    /// style the caller set is kept, and every other field is unchanged.
    pub fn defaults_from_theme(self, theme_style: DragNumberStyle<L>) -> (b: Self)
        ensures
            b == (DragNumberSpecBuilder {
                style: if self.style is Some {
                    self.style
                } else {
                    Some(theme_style)
                },
                ..self
            }),
    {
        if self.style.is_some() {
            self
        } else {
            DragNumberSpecBuilder { style: Some(theme_style), ..self }
        }
    }
}

impl<'a, L: Copy> DragNumberSpecBuilder<'a, L> {
    /// The spec, enabled unless set otherwise, with unset bounds taken from
    /// `default_min` and `default_max` (the widget's defaults are 0 and 100,
    /// floating-point constants given by the caller). Text and
    /// style must both have been set.
    pub fn build(
        self,
        default_min: L,
        default_max: L,
    ) -> (spec: DragNumberSpec<'a, L>)
        requires
            self.text is Some,
            self.style is Some,
        ensures
            Some(spec.text) == self.text,
            Some(spec.style) == self.style,
            spec.min == match self.min {
                Some(m) => m,
                None => default_min,
            },
            spec.max == match self.max {
                Some(m) => m,
                None => default_max,
            },
            spec.disabled == (self.disabled == Some(true)),
    {
        let min = match self.min {
            Some(m) => m,
            None => default_min,
        };
        let max = match self.max {
            Some(m) => m,
            None => default_max,
        };
        let disabled = match self.disabled {
            Some(d) => d,
            None => false,
        };
        DragNumberSpec {
            text: self.text.unwrap(),
            style: self.style.unwrap(),
            min,
            max,
            disabled,
        }
    }
}

} // verus!
