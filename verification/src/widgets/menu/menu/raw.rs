//! Per-phase menu functions.
//!
//! A menu stacks its rows top to bottom inside its vertical padding: each
//! entry takes the row height, each separator the separator height and each
//! group heading the group height. A selected entry is filled with the
//! selection background and drawn in the selection text colour.
use vstd::prelude::*;

use super::{MenuItem, MenuStyle};
use crate::layout::SizeRequest;
use crate::types::{Color, Layer, Rect};

verus! {

/// Everything the menu needs to draw once layout has placed it.
#[derive(Debug, Clone, Copy, PartialEq)]
pub struct MenuSpec<'a, L> {
    pub layer: Layer,
    /// Top-left origin; the width is at least the style's minimum width.
    pub rect: Rect<L>,
    pub items: &'a [MenuItem<'a>],
    pub style: MenuStyle<L>,
}

/// What the menu's size request depends on.
#[derive(Debug, Clone, Copy, PartialEq)]
pub struct MenuPreLayoutSpec<'a, L> {
    pub items: &'a [MenuItem<'a>],
    pub style: MenuStyle<L>,
}

/// The menu's size request.
#[derive(Debug, Clone, Copy, PartialEq)]
pub struct MenuPreLayoutResult<L> {
    pub size_request: SizeRequest<L>,
}

/// The menu's outer bounds and the area inside its border and padding.
#[derive(Debug, Clone, Copy, PartialEq)]
pub struct MenuResult<L> {
    pub bounds: Rect<L>,
    pub content_bounds: Rect<L>,
}

/// The height of one menu row.
pub open spec fn row_height<L>(style: MenuStyle<L>, item: MenuItem) -> L {
    match item {
        MenuItem::Item { .. } => style.row_height,
        MenuItem::Separator => style.separator_height,
        MenuItem::Group(_) => style.group_height,
    }
}

/// The height of each row, top to bottom. The menu's height is their sum
/// plus the vertical padding on both sides.
pub fn menu_row_heights<'a, L: Copy>(style: &MenuStyle<L>, items: &'a [MenuItem<'a>]) -> (heights:
    Vec<L>)
    ensures
        heights@.len() == items@.len(),
        forall|i: int| 0 <= i < items@.len() ==> heights@[i] == row_height(*style, items@[i]),
        // An entry takes the row height, a separator the separator height
        // and a group heading the group height.
        forall|i: int|
            0 <= i < items@.len() && (#[trigger] items@[i]) is Item ==> heights@[i] == style.row_height,
        forall|i: int|
            0 <= i < items@.len() && (#[trigger] items@[i]) is Separator ==> heights@[i]
                == style.separator_height,
        forall|i: int|
            0 <= i < items@.len() && (#[trigger] items@[i]) is Group ==> heights@[i]
                == style.group_height,
{
    let mut heights: Vec<L> = Vec::new();
    let mut i: usize = 0;
    while i < items.len()
        invariant
            0 <= i <= items@.len(),
            heights@.len() == i,
            forall|j: int| 0 <= j < i ==> heights@[j] == row_height(*style, items@[j]),
        decreases items@.len() - i,
    {
        let h = match items[i] {
            MenuItem::Item { .. } => style.row_height,
            MenuItem::Separator => style.separator_height,
            MenuItem::Group(_) => style.group_height,
        };
        heights.push(h);
        i += 1;
    }
    heights
}

/// The colours of an entry row, before disabled tinting.
#[derive(Debug, Clone, Copy, PartialEq)]
pub struct MenuEntryColors<L> {
    /// Row fill, if the row is filled.
    pub fill: Option<Color<L>>,
    /// Label colour.
    pub text: Color<L>,
    /// Shortcut hint colour.
    pub shortcut: Color<L>,
    /// The shortcut is drawn at the style's `shortcut_selected_alpha` (times
    /// the disabled alpha) in place of its colour's own alpha.
    pub shortcut_uses_selected_alpha: bool,
}

/// The colours of an entry row: a selected entry is filled with the
/// selection background and labelled in the selection text colour, its
/// shortcut also in the selection text colour at the style's selected
/// shortcut alpha; any other entry has no fill, plain text and a muted
/// shortcut.
pub fn menu_entry_colors<L: Copy>(style: &MenuStyle<L>, selected: bool) -> (colors:
    MenuEntryColors<L>)
    ensures
        colors == if selected {
            MenuEntryColors {
                fill: Some(style.selected_bg),
                text: style.selected_text,
                shortcut: style.selected_text,
                shortcut_uses_selected_alpha: true,
            }
        } else {
            MenuEntryColors {
                fill: None,
                text: style.text,
                shortcut: style.muted,
                shortcut_uses_selected_alpha: false,
            }
        },
{
    if selected {
        MenuEntryColors {
            fill: Some(style.selected_bg),
            text: style.selected_text,
            shortcut: style.selected_text,
            shortcut_uses_selected_alpha: true,
        }
    } else {
        MenuEntryColors {
            fill: None,
            text: style.text,
            shortcut: style.muted,
            shortcut_uses_selected_alpha: false,
        }
    }
}

} // verus!
