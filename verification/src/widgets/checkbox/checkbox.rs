//! Checkbox widget whose style carries optional border and focus strokes.
use vstd::prelude::*;

use crate::focus::FocusId;
use crate::types::{Color, Outline, Stroke};
use crate::widget::{InputInfo, LayoutInfo};

pub mod raw;

verus! {

/// Visual configuration for a checkbox.
#[derive(Debug, Clone, Copy, PartialEq)]
pub struct CheckboxStyle<L> {
    pub size: L,
    pub background: Color<L>,
    pub hovered: Color<L>,
    pub pressed: Color<L>,
    pub selected_fill: Color<L>,
    pub selected_hovered: Color<L>,
    pub selected_pressed: Color<L>,
    pub border: Option<Stroke<L>>,
    pub mark: Stroke<L>,
    pub focus: Option<Outline<L>>,
    pub disabled_alpha: L,
}

/// The state a checkbox shows.
#[derive(Debug, Clone, Copy, PartialEq, Eq, Structural, Default)]
pub enum CheckedState {
    #[default]
    Unchecked,
    Checked,
    Indeterminate,
}

/// State a checkbox keeps between frames.
#[derive(Debug, Clone, Copy, PartialEq, Eq, Default)]
pub struct CheckboxState {
    pub checked: CheckedState,
    /// True if the mouse was pressed while hovering this checkbox, until the mouse is released.
    pub is_active: bool,
    pub space_is_active: bool,
    pub focus_id: FocusId,
}

/// What a checkbox reports after a frame.
#[derive(Debug, Clone, Copy, PartialEq)]
pub struct CheckboxResult<L> {
    pub layout: LayoutInfo<L>,
    pub input: InputInfo,
    pub focused: bool,
}

/// A complete checkbox description.
#[derive(Debug, Clone, PartialEq)]
pub struct CheckboxSpec<L> {
    pub disabled: bool,
    pub allowed_checked_states: Vec<CheckedState>,
    pub style: CheckboxStyle<L>,
}

impl<L> CheckboxSpec<L> {
    pub fn disabled(self, disabled: bool) -> (s: Self)
        ensures
            s.disabled == disabled,
            s.allowed_checked_states == self.allowed_checked_states,
            s.style == self.style,
    {
        CheckboxSpec { disabled, ..self }
    }

    pub fn allowed_checked_states(self, allowed_checked_states: Vec<CheckedState>) -> (s: Self)
        ensures
            s.disabled == self.disabled,
            s.allowed_checked_states == allowed_checked_states,
            s.style == self.style,
    {
        CheckboxSpec { allowed_checked_states, ..self }
    }

    pub fn style(self, style: CheckboxStyle<L>) -> (s: Self)
        ensures
            s.disabled == self.disabled,
            s.allowed_checked_states == self.allowed_checked_states,
            s.style == style,
    {
        CheckboxSpec { style, ..self }
    }
}

impl<L> CheckboxSpec<L> {
    /// An enabled checkbox that moves between unchecked and checked, drawn
    /// in `theme_style`, the style the theme gives a checkbox.
    pub fn default_from_theme(theme_style: CheckboxStyle<L>) -> (s: Self)
        ensures
            !s.disabled,
            s.allowed_checked_states@ == seq![CheckedState::Unchecked, CheckedState::Checked],
            s.style == theme_style,
    {
        CheckboxSpec {
            disabled: false,
            allowed_checked_states: vec![CheckedState::Unchecked, CheckedState::Checked],
            style: theme_style,
        }
    }
}

} // verus!
