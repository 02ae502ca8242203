use lib::widget::InputInfo;
use lib::layout::{AxisBound, SizeOffer, SizeRequest};
use lib::types::{Color, Outline, Stroke, Vec2};
use lib::widgets::checkbox::checkbox::raw as new_raw;
use lib::widgets::checkbox::checkbox::{
    CheckboxSpec as NewCheckboxSpec, CheckboxStyle as NewCheckboxStyle,
    CheckedState as NewCheckedState,
};
use lib::widgets::checkbox::raw::{
    calc_checkbox_intrinsic_size, next_allowed_checked_state, CheckboxCalcIntrinsicSizeSpec,
};
use lib::focus::FocusId;
use lib::widgets::checkbox::checkbox::CheckboxState as NewCheckboxState;
use lib::widgets::checkbox::raw::{apply_checkbox_click, CheckMark};
use lib::widgets::checkbox::{CheckboxSpecBuilder, CheckboxState, CheckboxStyle, CheckedState};

fn gray(v: f32) -> Color<f32> {
    Color::linear_rgba(v, v, v, 1.0)
}

fn old_style() -> CheckboxStyle<f32> {
    CheckboxStyle {
        size: 14.0,
        background: gray(0.98),
        hovered: gray(0.9),
        pressed: gray(0.8),
        selected_fill: gray(0.1),
        selected_hovered: gray(0.0),
        selected_pressed: gray(0.05),
        border: gray(0.1),
        mark: gray(0.95),
        focus: Color::linear_rgba(0.7, 0.3, 0.14, 1.0),
        border_width: 1.0,
        mark_width: 1.5,
        focus_width: 2.0,
        focus_offset: 2.0,
        disabled_alpha: 0.35,
    }
}

fn new_style() -> NewCheckboxStyle<f32> {
    NewCheckboxStyle {
        size: 16.0,
        background: gray(0.98),
        hovered: gray(0.9),
        pressed: gray(0.8),
        selected_fill: gray(0.1),
        selected_hovered: gray(0.0),
        selected_pressed: gray(0.05),
        border: Some(Stroke::new(gray(0.1), 1.0)),
        mark: Stroke::new(gray(0.95), 1.5),
        focus: None,
        disabled_alpha: 0.35,
    }
}

#[test]
fn checkbox_clicks_cycle_three_states_in_order() {
    let allowed = [CheckedState::Unchecked, CheckedState::Checked, CheckedState::Indeterminate];
    let mut state = CheckedState::Unchecked;
    for expected in [CheckedState::Checked, CheckedState::Indeterminate, CheckedState::Unchecked] {
        state = next_allowed_checked_state(state, &allowed, true);
        assert_eq!(state, expected);
    }
}

#[test]
fn checkbox_clicks_follow_nonstandard_order() {
    let allowed = [CheckedState::Checked, CheckedState::Indeterminate];
    let mut state = CheckedState::Checked;
    for expected in [CheckedState::Indeterminate, CheckedState::Checked] {
        state = next_allowed_checked_state(state, &allowed, true);
        assert_eq!(state, expected);
    }
}

#[test]
fn checkbox_disallowed_state_clamps_to_first_allowed() {
    let allowed = [CheckedState::Unchecked, CheckedState::Checked];
    assert_eq!(
        next_allowed_checked_state(CheckedState::Indeterminate, &allowed, false),
        CheckedState::Unchecked
    );
    assert_eq!(
        next_allowed_checked_state(CheckedState::Indeterminate, &allowed, true),
        CheckedState::Unchecked
    );
}

#[test]
fn checkbox_unclicked_state_is_kept() {
    let allowed = [CheckedState::Unchecked, CheckedState::Checked];
    assert_eq!(
        next_allowed_checked_state(CheckedState::Checked, &allowed, false),
        CheckedState::Checked
    );
}

#[test]
fn checkbox_repeated_state_advances_from_first_occurrence() {
    let allowed = [CheckedState::Checked, CheckedState::Unchecked, CheckedState::Checked];
    assert_eq!(
        next_allowed_checked_state(CheckedState::Checked, &allowed, true),
        CheckedState::Unchecked
    );
}

#[test]
fn checkbox_full_round_of_clicks_returns_to_start() {
    let allowed = [NewCheckedState::Indeterminate, NewCheckedState::Unchecked, NewCheckedState::Checked];
    let start = NewCheckedState::Unchecked;
    let mut state = start;
    for _ in 0..allowed.len() {
        state = new_raw::next_allowed_checked_state(state, &allowed, true);
    }
    assert_eq!(state, start);
}

#[test]
fn checkbox_intrinsic_size_is_style_square() {
    let r = calc_checkbox_intrinsic_size(&CheckboxCalcIntrinsicSizeSpec { style: old_style() });
    assert_eq!(r.preferred, Some(Vec2::new(14.0, 14.0)));
}

#[test]
fn checkbox_request_is_style_square_for_any_offer() {
    let spec = new_raw::CheckboxPreLayoutSpec { style: new_style() };
    for offer in [
        SizeOffer::unbounded(),
        SizeOffer::new(AxisBound::Exact(50.0), AxisBound::AtMost(3.0)),
    ] {
        let r = new_raw::pre_layout_checkbox(&spec, offer);
        assert_eq!(r.size_request, SizeRequest::preferred(Vec2::new(16.0, 16.0)));
    }
}

#[test]
fn checkbox_test_builder_preserves_allowed_checked_states() {
    let allowed_checked_states = vec![CheckedState::Checked, CheckedState::Indeterminate];
    let spec = CheckboxSpecBuilder::new()
        .allowed_checked_states(allowed_checked_states.clone())
        .defaults_from_theme(old_style())
        .build();
    assert_eq!(spec.allowed_checked_states, allowed_checked_states);
}

#[test]
fn checkbox_builder_defaults() {
    let spec = CheckboxSpecBuilder::new().style(old_style()).build();
    assert!(!spec.disabled);
    assert_eq!(spec.allowed_checked_states, vec![CheckedState::Unchecked, CheckedState::Checked]);
    assert_eq!(spec.style, old_style());
    let spec = CheckboxSpecBuilder::new().disabled(true).style(old_style()).build();
    assert!(spec.disabled);
}

#[test]
fn checkbox_spec_setters_replace_one_field() {
    let spec = NewCheckboxSpec {
        disabled: false,
        allowed_checked_states: vec![NewCheckedState::Unchecked],
        style: new_style(),
    };
    let spec = spec.disabled(true).allowed_checked_states(vec![NewCheckedState::Checked]);
    assert!(spec.disabled);
    assert_eq!(spec.allowed_checked_states, vec![NewCheckedState::Checked]);
    assert_eq!(spec.style, new_style());
}

fn hover_click() -> InputInfo {
    InputInfo { hovered: true, pressed: false, clicked: true }
}

fn idle() -> InputInfo {
    InputInfo { hovered: false, pressed: false, clicked: false }
}

#[test]
fn checkbox_click_advances_and_selects_fill() {
    let style = old_style();
    let allowed = [CheckedState::Unchecked, CheckedState::Checked, CheckedState::Indeterminate];
    let mut state = CheckboxState {
        checked: CheckedState::Unchecked,
        is_active: true,
        space_is_active: false,
        focus_id: FocusId(7),
    };
    let look = apply_checkbox_click(&mut state, &style, &allowed, hover_click(), true);
    assert_eq!(state.checked, CheckedState::Checked);
    assert!(state.is_active);
    assert_eq!(state.focus_id, FocusId(7));
    assert_eq!(look.mark, CheckMark::Tick);
    assert_eq!(look.fill, style.selected_hovered);
    assert!(look.draw_focus_ring);

    let pressed = InputInfo { hovered: true, pressed: true, clicked: true };
    let look = apply_checkbox_click(&mut state, &style, &allowed, pressed, false);
    assert_eq!(state.checked, CheckedState::Indeterminate);
    assert_eq!(look.mark, CheckMark::Dash);
    assert_eq!(look.fill, style.selected_pressed);
    assert!(!look.draw_focus_ring);

    let look = apply_checkbox_click(&mut state, &style, &allowed, InputInfo { hovered: false, ..hover_click() }, false);
    assert_eq!(state.checked, CheckedState::Unchecked);
    assert_eq!(look.mark, CheckMark::Empty);
    assert_eq!(look.fill, style.background);
}

#[test]
fn checkbox_without_click_keeps_state_and_look() {
    let style = new_style();
    let allowed = [NewCheckedState::Unchecked, NewCheckedState::Checked];
    let mut state = NewCheckboxState { checked: NewCheckedState::Checked, ..Default::default() };
    let look = new_raw::apply_checkbox_click(&mut state, &style, &allowed, idle(), true);
    assert_eq!(state.checked, NewCheckedState::Checked);
    assert_eq!(look.mark, new_raw::CheckMark::Tick);
    assert_eq!(look.fill, style.selected_fill);
    // The style has no focus outline, so none is drawn even when focused.
    assert!(!look.draw_focus_ring);

    let look = new_raw::apply_checkbox_click(&mut state, &style, &allowed, hover_click(), false);
    assert_eq!(state.checked, NewCheckedState::Unchecked);
    assert_eq!(look.mark, new_raw::CheckMark::Empty);
    assert_eq!(look.fill, style.hovered);

    let focus = Outline::new(gray(0.5), 2.0, 2.0);
    let outlined = NewCheckboxStyle { focus: Some(focus), ..style };
    let look = new_raw::apply_checkbox_click(&mut state, &outlined, &allowed, idle(), true);
    assert!(look.draw_focus_ring);
}

/// One pointer click as a press frame followed by a release frame; the
/// click lands on the release.
fn click_old(state: &mut CheckboxState, allowed: &[CheckedState]) {
    apply_checkbox_click(state, &old_style(), allowed, InputInfo { clicked: false, pressed: true, ..hover_click() }, false);
    apply_checkbox_click(state, &old_style(), allowed, hover_click(), false);
}

fn click_new(state: &mut NewCheckboxState, allowed: &[NewCheckedState]) {
    new_raw::apply_checkbox_click(state, &new_style(), allowed, InputInfo { clicked: false, pressed: true, ..hover_click() }, false);
    new_raw::apply_checkbox_click(state, &new_style(), allowed, hover_click(), false);
}

#[test]
fn checkbox_test_checkbox_clamps_state_to_first_allowed_state() {
    let allowed = [CheckedState::Unchecked, CheckedState::Checked];
    let mut state = CheckboxState { checked: CheckedState::Indeterminate, ..Default::default() };
    apply_checkbox_click(&mut state, &old_style(), &allowed, idle(), false);
    assert_eq!(state.checked, CheckedState::Unchecked, "Checkbox should clamp to the first allowed state");
}

#[test]
fn checkbox_test_checkbox_click_cycles_allowed_states_in_order() {
    let allowed = [CheckedState::Unchecked, CheckedState::Checked, CheckedState::Indeterminate];
    let mut state = CheckboxState::default();
    for expected in [CheckedState::Checked, CheckedState::Indeterminate, CheckedState::Unchecked] {
        click_old(&mut state, &allowed);
        assert_eq!(state.checked, expected);
    }
}

#[test]
fn checkbox_test_checkbox_click_honors_nonstandard_allowed_state_order() {
    let allowed = [CheckedState::Checked, CheckedState::Indeterminate];
    let mut state = CheckboxState { checked: CheckedState::Checked, ..Default::default() };
    for expected in [CheckedState::Indeterminate, CheckedState::Checked] {
        click_old(&mut state, &allowed);
        assert_eq!(state.checked, expected);
    }
}

#[test]
fn checkbox_tests_test_checkbox_clamps_state_to_first_allowed_state() {
    let allowed = [NewCheckedState::Unchecked, NewCheckedState::Checked];
    let mut state = NewCheckboxState { checked: NewCheckedState::Indeterminate, ..Default::default() };
    new_raw::apply_checkbox_click(&mut state, &new_style(), &allowed, idle(), false);
    assert_eq!(
        state.checked,
        NewCheckedState::Unchecked,
        "Checkbox should clamp to the first allowed state"
    );
}

#[test]
fn checkbox_tests_test_checkbox_click_cycles_allowed_states_in_order() {
    let allowed = [NewCheckedState::Unchecked, NewCheckedState::Checked, NewCheckedState::Indeterminate];
    let mut state = NewCheckboxState::default();
    for expected in [NewCheckedState::Checked, NewCheckedState::Indeterminate, NewCheckedState::Unchecked] {
        click_new(&mut state, &allowed);
        assert_eq!(state.checked, expected);
    }
}

#[test]
fn checkbox_tests_test_checkbox_click_honors_nonstandard_allowed_state_order() {
    let allowed = [NewCheckedState::Checked, NewCheckedState::Indeterminate];
    let mut state = NewCheckboxState { checked: NewCheckedState::Checked, ..Default::default() };
    for expected in [NewCheckedState::Indeterminate, NewCheckedState::Checked] {
        click_new(&mut state, &allowed);
        assert_eq!(state.checked, expected);
    }
}
