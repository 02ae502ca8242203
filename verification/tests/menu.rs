use lib::text::{FontId, TextFlow, TextStyle};
use lib::types::{Color, Stroke};
use lib::widgets::menu::menu::raw::{menu_entry_colors, menu_row_heights, MenuEntryColors};
use lib::widgets::menu::raw as old_raw;
use lib::widgets::menu::{MenuItem as OldMenuItem, MenuStyle as OldMenuStyle};
use lib::widgets::menu::menu::{MenuItem, MenuStyle};

fn gray(v: f32) -> Color<f32> {
    Color::linear_rgba(v, v, v, 1.0)
}

fn menu_style() -> MenuStyle<f32> {
    let text = TextStyle::new(FontId(0), 13.0, 400, TextFlow::single_line());
    MenuStyle {
        row_height: 24.0,
        separator_height: 9.0,
        group_height: 20.0,
        pad_x: 8.0,
        pad_y: 4.0,
        group_text_y: 4.0,
        separator_y: 4.0,
        min_width: 160.0,
        label_style: text,
        meta_style: text,
        background: gray(0.98),
        border: Some(Stroke::new(gray(0.8), 1.0)),
        separator: Some(Stroke::new(gray(0.85), 1.0)),
        selected_bg: gray(0.1),
        selected_text: gray(0.95),
        text: gray(0.1),
        muted: gray(0.5),
        shortcut_selected_alpha: 0.7,
        disabled_alpha: 0.35,
    }
}

#[test]
fn menu_rows_take_their_kind_height() {
    let style = menu_style();
    let items = [
        MenuItem::Group("File"),
        MenuItem::Item { label: "Open", shortcut: Some("Ctrl+O"), selected: false, disabled: false },
        MenuItem::Separator,
        MenuItem::Item { label: "Quit", shortcut: None, selected: true, disabled: false },
    ];
    let heights = menu_row_heights(&style, &items);
    assert_eq!(heights, vec![20.0, 24.0, 9.0, 24.0]);
    let total: f32 = heights.iter().sum::<f32>() + 2.0 * style.pad_y;
    assert_eq!(total, 85.0);
}

#[test]
fn menu_empty_has_no_rows() {
    let style = menu_style();
    let items: [MenuItem; 0] = [];
    assert!(menu_row_heights(&style, &items).is_empty());
}

#[test]
fn menu_selected_entry_uses_selection_colors() {
    let style = menu_style();
    assert_eq!(
        menu_entry_colors(&style, true),
        MenuEntryColors {
            fill: Some(style.selected_bg),
            text: style.selected_text,
            shortcut: style.selected_text,
            shortcut_uses_selected_alpha: true,
        }
    );
    assert_eq!(
        menu_entry_colors(&style, false),
        MenuEntryColors { fill: None, text: style.text, shortcut: style.muted, shortcut_uses_selected_alpha: false }
    );
}

fn old_menu_style() -> OldMenuStyle<f32> {
    OldMenuStyle {
        row_height: 26.0,
        separator_height: 9.0,
        group_height: 22.0,
        pad_x: 12.0,
        pad_y: 4.0,
        group_text_y: 8.0,
        separator_y: 4.0,
        min_width: 200.0,
        label_size: 13.0,
        meta_size: 11.0,
        label_font: FontId(1),
        meta_font: FontId(2),
        background: gray(0.98),
        border: gray(0.1),
        separator: gray(0.7),
        selected_bg: gray(0.1),
        selected_text: gray(0.95),
        text: gray(0.1),
        muted: gray(0.5),
        shortcut_selected_alpha: 0.6,
        disabled_alpha: 0.4,
        border_width: 1.0,
    }
}

#[test]
fn plain_menu_rows_and_colors() {
    let style = old_menu_style();
    let items = [
        OldMenuItem::Item { label: "Cut", shortcut: Some("Ctrl+X"), selected: true, disabled: false },
        OldMenuItem::Separator,
        OldMenuItem::Group("Edit"),
    ];
    assert_eq!(old_raw::menu_row_heights(&style, &items), vec![26.0, 9.0, 22.0]);
    let c = old_raw::menu_entry_colors(&style, true);
    assert_eq!(c.fill, Some(style.selected_bg));
    assert_eq!(c.shortcut, style.selected_text);
    assert!(c.shortcut_uses_selected_alpha);
    let c = old_raw::menu_entry_colors(&style, false);
    assert_eq!(c.fill, None);
    assert_eq!(c.text, style.text);
    assert_eq!(c.shortcut, style.muted);
}
