//! Popup menu whose style names fonts and sizes directly.
use vstd::prelude::*;

use crate::text::FontId;
use crate::types::{Color, Rect};
use crate::widget::LayoutInfo;

pub mod menu;
pub mod raw;

verus! {

/// One row of a menu.
#[derive(Debug, Clone, Copy, PartialEq)]
pub enum MenuItem<'a> {
    /// A selectable entry with an optional shortcut hint.
    Item { label: &'a str, shortcut: Option<&'a str>, selected: bool, disabled: bool },
    /// A horizontal rule between groups of entries.
    Separator,
    /// A heading above a group of entries.
    Group(&'a str),
}

/// Visual configuration for a menu.
#[derive(Debug, Clone, Copy, PartialEq)]
pub struct MenuStyle<L> {
    pub row_height: L,
    pub separator_height: L,
    pub group_height: L,
    pub pad_x: L,
    pub pad_y: L,
    pub group_text_y: L,
    pub separator_y: L,
    pub min_width: L,
    pub label_size: L,
    pub meta_size: L,
    pub label_font: FontId,
    pub meta_font: FontId,
    pub background: Color<L>,
    pub border: Color<L>,
    pub separator: Color<L>,
    pub selected_bg: Color<L>,
    pub selected_text: Color<L>,
    pub text: Color<L>,
    pub muted: Color<L>,
    pub shortcut_selected_alpha: L,
    pub disabled_alpha: L,
    pub border_width: L,
}

/// What a menu reports after a frame.
#[derive(Debug, Clone, Copy, PartialEq)]
pub struct MenuResult<L> {
    pub layout: LayoutInfo<L>,
}

/// Builder for [`raw::MenuSpec`].
#[derive(Debug, Clone, Copy, PartialEq)]
pub struct MenuSpecBuilder<'a, L> {
    pub rect: Option<Rect<L>>,
    pub items: Option<&'a [MenuItem<'a>]>,
    pub style: Option<MenuStyle<L>>,
}

impl<'a, L> MenuSpecBuilder<'a, L> {
    pub fn new() -> (b: Self)
        ensures
            b.rect is None,
            b.items is None,
            b.style is None,
    {
        MenuSpecBuilder { rect: None, items: None, style: None }
    }

    pub fn items(self, items: &'a [MenuItem<'a>]) -> (b: Self)
        ensures
            b == (MenuSpecBuilder { items: Some(items), ..self }),
    {
        MenuSpecBuilder { items: Some(items), ..self }
    }

    pub fn style(self, style: MenuStyle<L>) -> (b: Self)
        ensures
            b == (MenuSpecBuilder { style: Some(style), ..self }),
    {
        MenuSpecBuilder { style: Some(style), ..self }
    }

    /// Sets the bounding rectangle.
    pub fn rect(self, rect: Rect<L>) -> (b: Self)
        ensures
            b == (MenuSpecBuilder { rect: Some(rect), ..self }),
    {
        MenuSpecBuilder { rect: Some(rect), ..self }
    }

    /// The raw spec; rect, items and style must all have been set.
    pub fn build(self) -> (spec: raw::MenuSpec<'a, L>)
        requires
            self.rect is Some,
            self.items is Some,
            self.style is Some,
        ensures
            Some(spec.rect) == self.rect,
            Some(spec.items) == self.items,
            Some(spec.style) == self.style,
    {
        raw::MenuSpec {
            rect: self.rect.unwrap(),
            items: self.items.unwrap(),
            style: self.style.unwrap(),
        }
    }
}

impl<'a, L> MenuSpecBuilder<'a, L> {
    /// Fills an unset style with `theme_style`, the style the theme gives
    /// a menu (it is computed in floating point, outside this library); a
    /// style the caller set is kept, and every other field is unchanged.
    pub fn defaults_from_theme(self, theme_style: MenuStyle<L>) -> (b: Self)
        ensures
            b == (MenuSpecBuilder {
                style: if self.style is Some {
                    self.style
                } else {
                    Some(theme_style)
                },
                ..self
            }),
    {
        if self.style.is_some() {
            self
        } else {
            MenuSpecBuilder { style: Some(theme_style), ..self }
        }
    }
}

} // verus!
