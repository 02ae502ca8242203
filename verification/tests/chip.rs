use lib::focus::FocusId;
use lib::input::Input;
use lib::layout::{SizeOffer, SizeRequest};
use lib::output::CursorIcon;
use lib::text::{FontId, TextFlow, TextStyle};
use lib::types::{Color, Vec2};
use lib::widget::InputInfo;
use lib::widgets::chip::chip::raw::{apply_chip_interaction, pre_layout_chip, ChipPreLayoutSpec};
use lib::widgets::chip::chip::{ChipState as NewChipState, ChipStyle as NewChipStyle};
use lib::widgets::chip::raw::{chip_interaction, size_chip, ChipSizeSpec};
use lib::widgets::chip::{ChipSpecBuilder, ChipState, ChipStyle};

fn c(v: f32) -> Color<f32> {
    Color::linear_rgba(v, v, v, 1.0)
}

fn old_chip_style() -> ChipStyle<f32> {
    ChipStyle {
        height: 22.0,
        pad_x: 8.0,
        text_style: TextStyle::new(FontId(1), 13.0, 400, TextFlow::single_line()),
        background: c(0.98),
        active_bg: c(0.1),
        border: c(0.1),
        text: c(0.1),
        active_text: c(0.95),
        focus: c(0.5),
        border_width: 1.0,
        focus_width: 2.0,
        focus_offset: 2.0,
        disabled_alpha: 0.35,
    }
}

fn new_chip_style() -> NewChipStyle<f32> {
    NewChipStyle {
        height: 22.0,
        pad_x: 8.0,
        text_style: TextStyle::new(FontId(1), 13.0, 400, TextFlow::single_line()),
        background: c(0.98),
        active_bg: c(0.1),
        border: None,
        text: c(0.2),
        active_text: c(0.95),
        focus: None,
        disabled_alpha: 0.35,
    }
}

#[test]
fn chip_pointer_click_toggles_checked() {
    let mut state = ChipState::default();
    let input = Input::<f32>::default();
    let info = chip_interaction(&mut state, &input, true, true, true);
    assert!(state.checked);
    assert_eq!(info, InputInfo { hovered: true, pressed: false, clicked: true });
    chip_interaction(&mut state, &input, true, true, true);
    assert!(!state.checked);
}

#[test]
fn chip_enter_clicks_only_when_focused() {
    let mut state = ChipState::default();
    let input = Input::<f32> { key_pressed_enter: true, ..Default::default() };
    let info = chip_interaction(&mut state, &input, false, false, false);
    assert!(!info.clicked);
    assert!(!state.checked);
    let info = chip_interaction(&mut state, &input, true, false, false);
    assert!(info.clicked);
    assert!(state.checked);
}

#[test]
fn chip_space_press_then_release_clicks() {
    let mut state = ChipState { focus_id: FocusId(7), ..Default::default() };
    let press = Input::<f32> { key_pressed_space: true, key_down_space: true, ..Default::default() };
    let info = chip_interaction(&mut state, &press, true, false, false);
    assert!(state.space_is_active);
    assert!(info.pressed);
    assert!(!info.clicked);
    let release = Input::<f32> { key_released_space: true, ..Default::default() };
    let info = chip_interaction(&mut state, &release, true, false, false);
    assert!(info.clicked);
    assert!(state.checked);
    assert!(!state.space_is_active);
    assert_eq!(state.focus_id, FocusId(7));
}

#[test]
fn chip_space_hold_ends_when_focus_is_lost() {
    let mut state = ChipState { space_is_active: true, ..Default::default() };
    let hold = Input::<f32> { key_down_space: true, ..Default::default() };
    chip_interaction(&mut state, &hold, false, false, false);
    assert!(!state.space_is_active);
}

#[test]
fn chip_pressed_while_pointer_held_on_click() {
    let mut state = ChipState::default();
    let input = Input::<f32> { mouse_down: true, ..Default::default() };
    let info = chip_interaction(&mut state, &input, true, true, true);
    assert!(info.pressed);
}

#[test]
fn chip_appearance_follows_checked_state() {
    let style = new_chip_style();
    let mut state = NewChipState::default();
    let click = InputInfo { hovered: true, pressed: false, clicked: true };
    let look = apply_chip_interaction(&mut state, &style, click, true, false);
    assert!(state.checked);
    assert_eq!(look.background, style.active_bg);
    assert_eq!(look.text, style.active_text);
    assert_eq!(look.cursor_icon, Some(CursorIcon::Pointer));
    // The style has no focus outline.
    assert!(!look.draw_focus_ring);
    let look = apply_chip_interaction(&mut state, &style, click, false, true);
    assert!(!state.checked);
    assert_eq!(look.background, style.background);
    assert_eq!(look.text, style.text);
    assert_eq!(look.cursor_icon, None);
}

#[test]
fn chip_request_is_text_size() {
    let spec = ChipPreLayoutSpec { text: "Tag", style: new_chip_style() };
    let r = pre_layout_chip(&spec, SizeOffer::unbounded(), Vec2::new(21.5, 14.0));
    assert_eq!(r.size_request, SizeRequest::preferred(Vec2::new(21.5, 14.0)));
    let spec = ChipSizeSpec { text: "Tag", style: old_chip_style() };
    let r = size_chip(&spec, SizeOffer::unbounded(), Vec2::new(3.0, 4.0));
    assert_eq!(r.preferred, Some(Vec2::new(3.0, 4.0)));
}

#[test]
fn chip_builder_is_enabled_unless_set() {
    let spec = ChipSpecBuilder::new().text("a").style(old_chip_style()).build();
    assert_eq!(spec.text, "a");
    assert!(!spec.disabled);
    let spec = ChipSpecBuilder::new().disabled(true).text("b").style(old_chip_style()).build();
    assert!(spec.disabled);
}

#[test]
fn chip_test_chip_keyboard_toggle() {
    // The chip holds keyboard focus in every frame.
    let mut state = ChipState::default();
    let mut input = Input::<f32>::default();

    // Frame 1: focused, nothing pressed.
    chip_interaction(&mut state, &input, true, false, false);

    // Frame 2: press Space.
    input.key_down_space = true;
    input.key_pressed_space = true;
    chip_interaction(&mut state, &input, true, false, false);

    // Frame 3: release Space.
    input.key_down_space = false;
    input.key_pressed_space = false;
    input.key_released_space = true;
    chip_interaction(&mut state, &input, true, false, false);

    assert!(state.checked, "Spacebar release must toggle chip state");
}
