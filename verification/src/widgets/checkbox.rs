//! Checkbox widget whose style carries plain border, mark and focus colours.
//!
//! Specs are assembled with [`CheckboxSpecBuilder`]; the checked state moves
//! through the spec's allowed states as described in [`cycle`].
use vstd::prelude::*;

use crate::focus::FocusId;
use crate::types::Color;
use crate::widget::{InputInfo, LayoutInfo};

pub mod checkbox;
pub mod cycle;
pub mod raw;

verus! {

/// Visual configuration for a checkbox.
#[derive(Debug, Clone, Copy, PartialEq)]
pub struct CheckboxStyle<L> {
    pub size: L,
    pub background: Color<L>,
    pub hovered: Color<L>,
    pub pressed: Color<L>,
    pub selected_fill: Color<L>,
    pub selected_hovered: Color<L>,
    pub selected_pressed: Color<L>,
    pub border: Color<L>,
    pub mark: Color<L>,
    pub focus: Color<L>,
    pub border_width: L,
    pub mark_width: L,
    pub focus_width: L,
    pub focus_offset: L,
    pub disabled_alpha: L,
}

/// The state a checkbox shows.
#[derive(Debug, Clone, Copy, PartialEq, Eq, Structural, Default)]
pub enum CheckedState {
    #[default]
    Unchecked,
    Checked,
    Indeterminate,
}

/// State a checkbox keeps between frames.
#[derive(Debug, Clone, Copy, PartialEq, Eq, Default)]
pub struct CheckboxState {
    pub checked: CheckedState,
    /// True if the mouse was pressed while hovering this checkbox, until the mouse is released.
    pub is_active: bool,
    pub space_is_active: bool,
    pub focus_id: FocusId,
}

/// What a checkbox reports after a frame.
#[derive(Debug, Clone, Copy, PartialEq)]
pub struct CheckboxResult<L> {
    pub layout: LayoutInfo<L>,
    pub input: InputInfo,
    pub focused: bool,
}

/// A complete checkbox description.
#[derive(Debug, Clone, PartialEq)]
pub struct CheckboxSpec<L> {
    pub disabled: bool,
    pub allowed_checked_states: Vec<CheckedState>,
    pub style: CheckboxStyle<L>,
}

/// Builder for [`CheckboxSpec`]; unset fields take their defaults at `build`.
#[derive(Debug, Clone, PartialEq)]
pub struct CheckboxSpecBuilder<L> {
    pub disabled: Option<bool>,
    pub allowed_checked_states: Option<Vec<CheckedState>>,
    pub style: Option<CheckboxStyle<L>>,
}

/// The allowed states of a checkbox whose spec does not set them.
pub open spec fn default_allowed_checked_states() -> Seq<CheckedState> {
    seq![CheckedState::Unchecked, CheckedState::Checked]
}

impl<L> CheckboxSpecBuilder<L> {
    pub fn new() -> (b: Self)
        ensures
            b.disabled is None,
            b.allowed_checked_states is None,
            b.style is None,
    {
        CheckboxSpecBuilder { disabled: None, allowed_checked_states: None, style: None }
    }

    pub fn disabled(self, disabled: bool) -> (b: Self)
        ensures
            b.disabled == Some(disabled),
            b.allowed_checked_states == self.allowed_checked_states,
            b.style == self.style,
    {
        CheckboxSpecBuilder { disabled: Some(disabled), ..self }
    }

    pub fn style(self, style: CheckboxStyle<L>) -> (b: Self)
        ensures
            b.disabled == self.disabled,
            b.allowed_checked_states == self.allowed_checked_states,
            b.style == Some(style),
    {
        CheckboxSpecBuilder { style: Some(style), ..self }
    }

    pub fn allowed_checked_states(self, allowed_checked_states: Vec<CheckedState>) -> (b: Self)
        ensures
            b.disabled == self.disabled,
            b.allowed_checked_states == Some(allowed_checked_states),
            b.style == self.style,
    {
        CheckboxSpecBuilder { allowed_checked_states: Some(allowed_checked_states), ..self }
    }

    /// Completes the spec: an unset `disabled` is `false` and unset allowed
    /// states are unchecked then checked. The style must have been set.
    pub fn build(self) -> (spec: CheckboxSpec<L>)
        requires
            self.style is Some,
        ensures
            spec.disabled == match self.disabled {
                Some(d) => d,
                None => false,
            },
            spec.allowed_checked_states@ == match self.allowed_checked_states {
                Some(v) => v@,
                None => default_allowed_checked_states(),
            },
            Some(spec.style) == self.style,
    {
        let disabled = match self.disabled {
            Some(d) => d,
            None => false,
        };
        let allowed_checked_states = match self.allowed_checked_states {
            Some(v) => v,
            None => vec![CheckedState::Unchecked, CheckedState::Checked],
        };
        let style = self.style.unwrap();
        CheckboxSpec { disabled, allowed_checked_states, style }
    }
}

impl<L> CheckboxSpecBuilder<L> {
    /// Fills an unset style with `theme_style`, the style the theme gives
    /// a checkbox (it is computed in floating point, outside this library); a
    /// style the caller set is kept, and every other field is unchanged.
    pub fn defaults_from_theme(self, theme_style: CheckboxStyle<L>) -> (b: Self)
        ensures
            b == (CheckboxSpecBuilder {
                style: if self.style is Some {
                    self.style
                } else {
                    Some(theme_style)
                },
                ..self
            }),
    {
        if self.style.is_some() {
            self
        } else {
            CheckboxSpecBuilder { style: Some(theme_style), ..self }
        }
    }
}

} // verus!
