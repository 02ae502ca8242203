//! Per-phase drag number functions.
//!
//! Each frame a drag number decides, from the pointer and keys, whether a
//! drag begins, continues or ends, and whether arrow keys step its value.
//! The value arithmetic itself is done by the caller from these decisions.
use vstd::prelude::*;

use super::{DragNumberState, DragNumberStyle};
use crate::input::Input;
use crate::types::{ClipRect, Layer, Rect};
use crate::widget::InputInfo;

verus! {

/// Everything the drag number needs for one frame once layout has placed it.
#[derive(Debug, Clone, Copy, PartialEq)]
pub struct DragNumberSpec<'a, L> {
    pub layer: Layer,
    /// Full bounding rect.
    pub rect: Rect<L>,
    pub text: &'a str,
    pub style: DragNumberStyle<L>,
    pub min: L,
    pub max: L,
    pub disabled: bool,
    pub clip_rect: ClipRect<L>,
}

/// What the drag number's intrinsic size depends on.
#[derive(Debug, Clone, Copy, PartialEq)]
pub struct DragNumberCalcIntrinsicSizeSpec<'a, L> {
    pub text: &'a str,
    pub style: DragNumberStyle<L>,
    pub min: L,
    pub max: L,
}

/// What the drag number reports after drawing.
#[derive(Debug, Clone, Copy, PartialEq)]
pub struct DragNumberResult<L> {
    pub input: InputInfo,
    pub focused: bool,
    pub content_bounds: Rect<L>,
}

/// The decisions of one frame of a drag number.
#[derive(Debug, Clone, Copy, PartialEq, Eq)]
pub struct DragNumberStep {
    /// A drag began this frame; it also takes keyboard focus.
    pub begin_drag: bool,
    /// The value follows the pointer's offset from where the drag began.
    pub follow_pointer: bool,
    /// The value steps down by one hundredth of its range.
    pub step_down: bool,
    /// The value steps up by one hundredth of its range, after any step down
    /// (each result kept within the bounds).
    pub step_up: bool,
    /// The widget draws its focus ring and active label background.
    pub visually_active: bool,
    pub input: InputInfo,
}

/// Whether the drag number is dragging after this frame: a press on the
/// value area starts a drag, and a drag lasts while the button is held. A
/// disabled drag number keeps whatever it had.
pub open spec fn dragging_after<L>(
    was_dragging: bool,
    input: Input<L>,
    disabled: bool,
    hovered_value_area: bool,
) -> bool {
    if disabled {
        was_dragging
    } else {
        (was_dragging || (input.mouse_pressed && hovered_value_area)) && input.mouse_down
    }
}

/// One frame of pointer and key handling. `focused` and `clicked` are what
/// the focus system reported; a disabled drag number runs no focus handling,
/// so it counts as neither focused nor clicked whatever is passed.
/// `hovered_value_area`
/// whether the pointer is over the visible value area, and `pointer_over`
/// whether it is over the visible widget.
pub fn drag_number_interaction<L: Copy>(
    state: &mut DragNumberState<L>,
    input: &Input<L>,
    disabled: bool,
    focused: bool,
    clicked: bool,
    hovered_value_area: bool,
    pointer_over: bool,
) -> (step: DragNumberStep)
    ensures
        step.begin_drag == (!disabled && input.mouse_pressed && hovered_value_area),
        final(state).is_dragging == dragging_after(
            old(state).is_dragging,
            *input,
            disabled,
            hovered_value_area,
        ),
        step.follow_pointer == (!disabled && final(state).is_dragging),
        // A drag in progress goes on while its button is held.
        !disabled && old(state).is_dragging && input.mouse_down ==> final(state).is_dragging
            && step.follow_pointer && step.input.pressed,
        // A press on the value area starts a drag.
        !disabled && input.mouse_pressed && input.mouse_down && hovered_value_area
            ==> final(state).is_dragging && step.follow_pointer,
        // Releasing the button ends the drag of an enabled drag number.
        !disabled && !input.mouse_down ==> !final(state).is_dragging && !step.follow_pointer,
        // A disabled drag number keeps its drag state and follows nothing.
        disabled ==> final(state).is_dragging == old(state).is_dragging && !step.follow_pointer,
        final(state).drag_start_x == if step.begin_drag {
            input.mouse_pos.x
        } else {
            old(state).drag_start_x
        },
        final(state).drag_start_value == if step.begin_drag {
            old(state).value
        } else {
            old(state).drag_start_value
        },
        final(state).value == old(state).value,
        final(state).focus_id == old(state).focus_id,
        step.step_down == (focused && !disabled && input.key_pressed_left),
        step.step_up == (focused && !disabled && input.key_pressed_right),
        step.visually_active == ((focused && !disabled) || final(state).is_dragging),
        step.input == (InputInfo {
            hovered: pointer_over,
            pressed: final(state).is_dragging,
            clicked: clicked && !disabled && !final(state).is_dragging,
        }),
{
    let mut begin_drag = false;
    let mut follow_pointer = false;
    if !disabled {
        if input.mouse_pressed && hovered_value_area {
            state.is_dragging = true;
            state.drag_start_x = input.mouse_pos.x;
            state.drag_start_value = state.value;
            begin_drag = true;
        }
        if state.is_dragging {
            if !input.mouse_down {
                state.is_dragging = false;
            } else {
                follow_pointer = true;
            }
        }
    }
    let keys = focused && !disabled;
    DragNumberStep {
        begin_drag,
        follow_pointer,
        step_down: keys && input.key_pressed_left,
        step_up: keys && input.key_pressed_right,
        visually_active: keys || state.is_dragging,
        input: InputInfo {
            hovered: pointer_over,
            pressed: state.is_dragging,
            clicked: clicked && !disabled && !state.is_dragging,
        },
    }
}

/// An enabled drag number keeps a drag in progress for as long as its
/// button is held.
pub proof fn lemma_drag_continues_while_held<L>(input: Input<L>, hovered_value_area: bool)
    requires
        input.mouse_down,
    ensures
        dragging_after(true, input, false, hovered_value_area),
{
}

/// On an enabled drag number a drag never outlives the held button. (A
/// disabled one keeps its drag unchanged, held button or not.)
pub proof fn lemma_drag_needs_held_button<L>(
    was_dragging: bool,
    input: Input<L>,
    hovered_value_area: bool,
)
    ensures
        dragging_after(was_dragging, input, false, hovered_value_area) ==> input.mouse_down,
        !input.mouse_down ==> !dragging_after(was_dragging, input, false, hovered_value_area),
{
}

} // verus!
