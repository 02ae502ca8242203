use lib::text::{FontId, TextContentPlacement, TextFlow, TextStyle};
use lib::types::{Color, Outline, Stroke};
use lib::widget::InputInfo;
use lib::widgets::button::button::raw as new_raw;
use lib::widgets::button::button::ButtonStyle as NewButtonStyle;
use lib::widgets::button::raw::button_decisions;
use lib::widgets::button::ButtonStyle;

fn gray(v: f32) -> Color<f32> {
    Color::linear_rgba(v, v, v, 1.0)
}

fn text() -> TextStyle<f32> {
    TextStyle::new(FontId(1), 13.0, 500, TextFlow::single_line())
}

fn old_style() -> ButtonStyle<f32> {
    ButtonStyle {
        background: gray(0.95),
        hovered: gray(0.9),
        pressed: gray(0.8),
        border: gray(0.1),
        border_width: 1.0,
        focus: gray(0.5),
        focus_width: 2.0,
        focus_offset: 2.0,
        text_style: text(),
        content_placement: TextContentPlacement::center(),
        text_color: gray(0.1),
        disabled_alpha: 0.32,
        pad_x: 14.0,
        pad_y: 6.0,
        min_height: 28.0,
    }
}

fn new_style() -> NewButtonStyle<f32> {
    NewButtonStyle {
        background: gray(0.95),
        hovered: gray(0.9),
        pressed: gray(0.8),
        border: Some(Stroke::new(gray(0.1), 1.0)),
        focus: Some(Outline::new(gray(0.5), 2.0, 2.0)),
        text_style: text(),
        content_placement: TextContentPlacement::center(),
        text_color: gray(0.1),
        disabled_alpha: 0.32,
        pad_x: 14.0,
        pad_y: 6.0,
        min_height: 28.0,
    }
}

const NONE: InputInfo = InputInfo { hovered: false, pressed: false, clicked: false };
const HOVER: InputInfo = InputInfo { hovered: true, pressed: false, clicked: false };
const PRESS: InputInfo = InputInfo { hovered: true, pressed: true, clicked: false };
const CLICK: InputInfo = InputInfo { hovered: true, pressed: false, clicked: true };

#[test]
fn button_fill_follows_hover_and_press() {
    let s = old_style();
    assert_eq!(button_decisions(&s, false, false, NONE).fill, s.background);
    assert_eq!(button_decisions(&s, false, false, HOVER).fill, s.hovered);
    assert_eq!(button_decisions(&s, false, false, PRESS).fill, s.pressed);
    let d = button_decisions(&s, false, true, CLICK);
    assert_eq!(d.input, CLICK);
    assert!(d.focused);
    assert!(d.draw_focus_ring);
    assert!(!d.tinted);
}

#[test]
fn disabled_button_reports_nothing() {
    let s = old_style();
    let d = button_decisions(&s, true, true, CLICK);
    assert_eq!(d.input, NONE);
    assert!(!d.focused);
    assert!(!d.draw_focus_ring);
    assert!(d.tinted);
    assert_eq!(d.fill, s.background);

    let n = new_style();
    let d = new_raw::button_decisions(&n, true, true, PRESS);
    assert_eq!(d.input, NONE);
    assert!(!d.focused);
    assert_eq!(d.fill, n.background);
    assert!(d.draw_border);
}

#[test]
fn button_rings_and_borders_need_style_strokes() {
    let n = new_style();
    let d = new_raw::button_decisions(&n, false, true, PRESS);
    assert_eq!(d.fill, n.pressed);
    assert!(d.draw_focus_ring);
    assert!(d.draw_border);
    let bare = NewButtonStyle { border: None, focus: None, ..n };
    let d = new_raw::button_decisions(&bare, false, true, HOVER);
    assert_eq!(d.fill, n.hovered);
    assert!(d.focused);
    assert!(!d.draw_focus_ring);
    assert!(!d.draw_border);
}
