//! Per-phase checkbox functions.
use vstd::prelude::*;

use super::cycle::{is_first_position, lemma_first_position_is, lemma_next_allowed_moves, next_allowed, first_position};
use super::{CheckboxState, CheckboxStyle, CheckedState};
use crate::layout::IntrinsicSize;
use crate::types::{ClipRect, Color, Layer, Rect, Vec2};
use crate::widget::InputInfo;

use crate::widgets::widget_helpers::{interaction_color, spec_interaction_color};

verus! {

/// Everything the checkbox needs for one frame once layout has placed it.
#[derive(Debug, Clone, PartialEq)]
pub struct CheckboxSpec<L> {
    /// Top-left of the box.
    pub rect: Rect<L>,
    pub disabled: bool,
    pub allowed_checked_states: Vec<CheckedState>,
    pub style: CheckboxStyle<L>,
    pub clip_rect: ClipRect<L>,
    pub layer: Layer,
}

/// What the checkbox's intrinsic size depends on.
#[derive(Debug, Clone, Copy, PartialEq)]
pub struct CheckboxCalcIntrinsicSizeSpec<L> {
    pub style: CheckboxStyle<L>,
}

/// What the checkbox reports after drawing.
#[derive(Debug, Clone, Copy, PartialEq)]
pub struct CheckboxResult<L> {
    pub input: InputInfo,
    pub focused: bool,
    pub content_bounds: Rect<L>,
}

/// A checkbox prefers a square of its style's size.
pub fn calc_checkbox_intrinsic_size<L: Copy>(spec: &CheckboxCalcIntrinsicSizeSpec<L>) -> (r:
    IntrinsicSize<L>)
    ensures
        r == (IntrinsicSize { preferred: Some(Vec2 { x: spec.style.size, y: spec.style.size }) }),
{
    IntrinsicSize::preferred(Vec2::new(spec.style.size, spec.style.size))
}

/// The first-occurrence search behind [`next_allowed_checked_state`].
fn find_next_allowed(
    current: CheckedState,
    allowed_checked_states: &[CheckedState],
    advance: bool,
) -> (next: CheckedState)
    requires
        allowed_checked_states@.len() > 0,
    ensures
        next == next_allowed(current, allowed_checked_states@, advance),
{
    let n = allowed_checked_states.len();
    let mut i: usize = 0;
    while i < n
        invariant
            0 <= i <= n,
            n == allowed_checked_states@.len(),
            forall|j: int| 0 <= j < i ==> allowed_checked_states@[j] != current,
        decreases n - i,
    {
        if allowed_checked_states[i] == current {
            proof {
                lemma_first_position_is(allowed_checked_states@, current, i as int);
            }
            if advance {
                return allowed_checked_states[(i + 1) % n];
            } else {
                return current;
            }
        }
        i += 1;
    }
    assert(!exists|k: int| is_first_position(allowed_checked_states@, current, k));
    allowed_checked_states[0]
}

/// The checked state after a frame in which the checkbox was clicked
/// (`advance`) or not. The allowed states must not be empty.
pub fn next_allowed_checked_state(
    current: CheckedState,
    allowed_checked_states: &[CheckedState],
    advance: bool,
) -> (next: CheckedState)
    requires
        allowed_checked_states@.len() > 0,
    ensures
        next == next_allowed(current, allowed_checked_states@, advance),
        allowed_checked_states@.contains(next),
        !allowed_checked_states@.contains(current) ==> next == allowed_checked_states@[0],
        allowed_checked_states@.contains(current) && !advance ==> next == current,
        // An allowed state has a first occurrence, and a click moves to the
        // state after it, wrapping round.
        allowed_checked_states@.contains(current) ==> 0 <= first_position(
            allowed_checked_states@,
            current,
        ) < allowed_checked_states@.len() && allowed_checked_states@[first_position(
            allowed_checked_states@,
            current,
        )] == current && forall|j: int|
            0 <= j < first_position(allowed_checked_states@, current)
                ==> allowed_checked_states@[j] != current,
        allowed_checked_states@.contains(current) && advance ==> next == allowed_checked_states@[(
        first_position(allowed_checked_states@, current) + 1) % (
        allowed_checked_states@.len() as int)],
{
    let next = find_next_allowed(current, allowed_checked_states, advance);
    proof {
        lemma_next_allowed_moves(current, allowed_checked_states@, advance);
    }
    next
}

/// The mark drawn inside the box.
#[derive(Debug, Clone, Copy, PartialEq, Eq)]
pub enum CheckMark {
    /// Nothing: the box is unchecked.
    Empty,
    /// A tick: the box is checked.
    Tick,
    /// A horizontal dash: the box is indeterminate.
    Dash,
}

/// How a checkbox draws this frame, once its click is applied.
#[derive(Debug, Clone, Copy, PartialEq)]
pub struct CheckboxAppearance<L> {
    /// Fill of the box, before disabled tinting.
    pub fill: Color<L>,
    pub mark: CheckMark,
    pub draw_focus_ring: bool,
}

/// Applies a frame's interaction to a checkbox and picks its look. `input`
/// and `focused` are what the press interaction reported for it (nothing
/// when it is disabled). A click moves the checked state as
/// [`next_allowed_checked_state`] says; an unchecked box picks among the
/// plain fills, any other among the selected fills, by press and hover; the
/// mark shows the state; the focus ring is drawn while the checkbox is focused.
pub fn apply_checkbox_click<L: Copy>(
    state: &mut CheckboxState,
    style: &CheckboxStyle<L>,
    allowed_checked_states: &[CheckedState],
    input: InputInfo,
    focused: bool,
) -> (look: CheckboxAppearance<L>)
    requires
        allowed_checked_states@.len() > 0,
    ensures
        final(state).checked == next_allowed(
            old(state).checked,
            allowed_checked_states@,
            input.clicked,
        ),
        final(state).is_active == old(state).is_active,
        final(state).space_is_active == old(state).space_is_active,
        final(state).focus_id == old(state).focus_id,
        look.fill == if final(state).checked == CheckedState::Unchecked {
            spec_interaction_color(
                style.background,
                style.hovered,
                style.pressed,
                input.hovered,
                input.pressed,
            )
        } else {
            spec_interaction_color(
                style.selected_fill,
                style.selected_hovered,
                style.selected_pressed,
                input.hovered,
                input.pressed,
            )
        },
        look.mark == match final(state).checked {
            CheckedState::Unchecked => CheckMark::Empty,
            CheckedState::Checked => CheckMark::Tick,
            CheckedState::Indeterminate => CheckMark::Dash,
        },
        look.draw_focus_ring == (focused),
        // The state stays allowed; without a click an allowed state stays.
        allowed_checked_states@.contains(final(state).checked),
        !input.clicked && allowed_checked_states@.contains(old(state).checked)
            ==> final(state).checked == old(state).checked,
        // An unchecked box shows its plain fills, any other its selected
        // fills, the pressed one while pressed, else the hovered one while
        // hovered.
        final(state).checked == CheckedState::Unchecked && input.pressed ==> look.fill
            == style.pressed,
        final(state).checked == CheckedState::Unchecked && !input.pressed && input.hovered
            ==> look.fill == style.hovered,
        final(state).checked == CheckedState::Unchecked && !input.pressed && !input.hovered
            ==> look.fill == style.background,
        final(state).checked != CheckedState::Unchecked && input.pressed ==> look.fill
            == style.selected_pressed,
        final(state).checked != CheckedState::Unchecked && !input.pressed && input.hovered
            ==> look.fill == style.selected_hovered,
        final(state).checked != CheckedState::Unchecked && !input.pressed && !input.hovered
            ==> look.fill == style.selected_fill,
{
    state.checked = next_allowed_checked_state(
        state.checked,
        allowed_checked_states,
        input.clicked,
    );
    let (fill, mark) = match state.checked {
        CheckedState::Unchecked => (
            interaction_color(
                style.background,
                style.hovered,
                style.pressed,
                input.hovered,
                input.pressed,
            ),
            CheckMark::Empty,
        ),
        CheckedState::Checked => (
            interaction_color(
                style.selected_fill,
                style.selected_hovered,
                style.selected_pressed,
                input.hovered,
                input.pressed,
            ),
            CheckMark::Tick,
        ),
        CheckedState::Indeterminate => (
            interaction_color(
                style.selected_fill,
                style.selected_hovered,
                style.selected_pressed,
                input.hovered,
                input.pressed,
            ),
            CheckMark::Dash,
        ),
    };
    CheckboxAppearance { fill, mark, draw_focus_ring: focused }
}

} // verus!
