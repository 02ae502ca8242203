//! Popup menu whose style holds text styles and optional strokes.
use vstd::prelude::*;

use crate::text::TextStyle;
use crate::types::{Color, Stroke};
use crate::widget::LayoutInfo;

pub mod raw;

verus! {

/// One row of a menu.
#[derive(Debug, Clone, Copy, PartialEq)]
pub enum MenuItem<'a> {
    /// A selectable entry with an optional shortcut hint.
    Item { label: &'a str, shortcut: Option<&'a str>, selected: bool, disabled: bool },
    /// A horizontal rule between groups of entries.
    Separator,
    /// A heading above a group of entries.
    Group(&'a str),
}

/// Visual configuration for a menu.
#[derive(Debug, Clone, Copy, PartialEq)]
pub struct MenuStyle<L> {
    pub row_height: L,
    pub separator_height: L,
    pub group_height: L,
    pub pad_x: L,
    pub pad_y: L,
    pub group_text_y: L,
    pub separator_y: L,
    pub min_width: L,
    pub label_style: TextStyle<L>,
    pub meta_style: TextStyle<L>,
    pub background: Color<L>,
    pub border: Option<Stroke<L>>,
    pub separator: Option<Stroke<L>>,
    pub selected_bg: Color<L>,
    pub selected_text: Color<L>,
    pub text: Color<L>,
    pub muted: Color<L>,
    pub shortcut_selected_alpha: L,
    pub disabled_alpha: L,
}

/// What a menu reports after a frame.
#[derive(Debug, Clone, Copy, PartialEq)]
pub struct MenuResult<L> {
    pub layout: LayoutInfo<L>,
}

/// A complete menu description.
#[derive(Debug, Clone, Copy, PartialEq)]
pub struct MenuSpec<'a, L> {
    pub items: &'a [MenuItem<'a>],
    pub style: MenuStyle<L>,
}

impl<'a, L> MenuSpec<'a, L> {
    pub fn items(self, items: &'a [MenuItem<'a>]) -> (s: Self)
        ensures
            s == (MenuSpec { items, style: self.style }),
    {
        MenuSpec { items, style: self.style }
    }

    pub fn style(self, style: MenuStyle<L>) -> (s: Self)
        ensures
            s == (MenuSpec { items: self.items, style }),
    {
        MenuSpec { items: self.items, style }
    }
}

impl<'a, L> MenuSpec<'a, L> {
    /// A menu of `items` drawn in `theme_style`, the style the theme gives a
    /// menu.
    pub fn new_from_theme(items: &'a [MenuItem<'a>], theme_style: MenuStyle<L>) -> (s: Self)
        ensures
            s == (MenuSpec { items, style: theme_style }),
    {
        MenuSpec { items, style: theme_style }
    }
}

} // verus!
