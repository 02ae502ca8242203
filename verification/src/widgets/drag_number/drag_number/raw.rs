//! Per-phase drag number functions.
//!
//! Each frame a drag number decides, from the pointer and keys, whether a
//! drag begins, continues or ends, and how the keys adjust its value: the
//! left and up arrows step it down and the right and down arrows up by its
//! step, Page Up lowers and Page Down raises it by its page step, and Home
//! and End move it to its bounds; every key pressed in a frame applies, in
//! a fixed order. The value arithmetic itself (the step
//! added, the result kept within the bounds) is done by the caller from
//! these decisions.
//! A disabled drag number drops any drag and reports no interaction.
use vstd::prelude::*;

use super::{DragNumberState, DragNumberStyle};
use crate::draw::one_if;
use crate::input::Input;
use crate::layout::SizeRequest;
use crate::types::{Color, ClipRect, Layer, Rect};
use crate::widget::InputInfo;

verus! {

/// Everything the drag number needs for one frame once layout has placed it.
#[derive(Debug, Clone, Copy, PartialEq)]
pub struct DragNumberSpec<'a, L> {
    pub layer: Layer,
    /// Full bounding rect.
    pub rect: Rect<L>,
    pub text: &'a str,
    pub style: DragNumberStyle<L>,
    pub min: L,
    pub max: L,
    /// Change made by an arrow key.
    pub step: L,
    /// Change made by Page Up or Page Down.
    pub page_step: L,
    pub disabled: bool,
    pub clip_rect: ClipRect<L>,
}

/// What the drag number's size request depends on.
#[derive(Debug, Clone, Copy, PartialEq)]
pub struct DragNumberPreLayoutSpec<'a, L> {
    pub text: &'a str,
    pub style: DragNumberStyle<L>,
    pub min: L,
    pub max: L,
}

/// The drag number's size request.
#[derive(Debug, Clone, Copy, PartialEq)]
pub struct DragNumberPreLayoutResult<L> {
    pub size_request: SizeRequest<L>,
}

/// What the drag number reports after drawing.
#[derive(Debug, Clone, Copy, PartialEq)]
pub struct DragNumberResult<L> {
    pub input: InputInfo,
    pub focused: bool,
    pub content_bounds: Rect<L>,
}

/// A keyboard adjustment of a drag number's value.
#[derive(Debug, Clone, Copy, PartialEq, Eq)]
pub enum KeyAdjust {
    /// Lower it by the step.
    DecreaseByStep,
    /// Raise it by the step.
    IncreaseByStep,
    /// Lower it by the page step.
    DecreaseByPage,
    /// Raise it by the page step.
    IncreaseByPage,
    /// Move it to the lower bound.
    ToMin,
    /// Move it to the upper bound.
    ToMax,
}

/// `adjust` alone when `pressed`, nothing otherwise.
pub open spec fn adjust_if(pressed: bool, adjust: KeyAdjust) -> Seq<KeyAdjust> {
    if pressed {
        seq![adjust]
    } else {
        Seq::empty()
    }
}

/// The adjustments the keys of this frame make to a focused, enabled drag
/// number, in the order they are applied (each result kept within the
/// bounds before the next): left, right, up, down, Page Up, Page Down,
/// Home, End.
pub open spec fn key_adjusts_for<L>(input: Input<L>) -> Seq<KeyAdjust> {
    adjust_if(input.key_pressed_left, KeyAdjust::DecreaseByStep) + adjust_if(
        input.key_pressed_right,
        KeyAdjust::IncreaseByStep,
    ) + adjust_if(input.key_pressed_up, KeyAdjust::DecreaseByStep) + adjust_if(
        input.key_pressed_down,
        KeyAdjust::IncreaseByStep,
    ) + adjust_if(input.key_pressed_page_up, KeyAdjust::DecreaseByPage) + adjust_if(
        input.key_pressed_page_down,
        KeyAdjust::IncreaseByPage,
    ) + adjust_if(input.key_pressed_home, KeyAdjust::ToMin) + adjust_if(
        input.key_pressed_end,
        KeyAdjust::ToMax,
    )
}

/// Every key pressed in a frame makes exactly one adjustment, so there are
/// as many adjustments as pressed keys; a left press makes the first and an
/// End press the last.
pub proof fn lemma_key_adjusts_count<L>(input: Input<L>)
    ensures
        key_adjusts_for(input).len() == one_if(input.key_pressed_left) + one_if(
            input.key_pressed_right,
        ) + one_if(input.key_pressed_up) + one_if(input.key_pressed_down) + one_if(
            input.key_pressed_page_up,
        ) + one_if(input.key_pressed_page_down) + one_if(input.key_pressed_home) + one_if(
            input.key_pressed_end,
        ),
        input.key_pressed_left ==> key_adjusts_for(input)[0] == KeyAdjust::DecreaseByStep,
        input.key_pressed_end ==> key_adjusts_for(input).last() == KeyAdjust::ToMax,
{
    let a = adjust_if(input.key_pressed_left, KeyAdjust::DecreaseByStep);
    let b = adjust_if(input.key_pressed_right, KeyAdjust::IncreaseByStep);
    let c = adjust_if(input.key_pressed_up, KeyAdjust::DecreaseByStep);
    let d = adjust_if(input.key_pressed_down, KeyAdjust::IncreaseByStep);
    let e = adjust_if(input.key_pressed_page_up, KeyAdjust::DecreaseByPage);
    let f = adjust_if(input.key_pressed_page_down, KeyAdjust::IncreaseByPage);
    let g = adjust_if(input.key_pressed_home, KeyAdjust::ToMin);
    let h = adjust_if(input.key_pressed_end, KeyAdjust::ToMax);
    let p1 = a + b + c + d;
    let p2 = p1 + e;
    let p3 = p2 + f;
    let p4 = p3 + g;
    let s = key_adjusts_for(input);
    assert(s == p4 + h);
    if input.key_pressed_left {
        assert(p1[0] == a[0]);
        assert(s[0] == p1[0]);
    }
    if input.key_pressed_end {
        assert(s[s.len() - 1] == h[0]);
    }
}

/// Home moves to the lower bound, and Page Up and Page Down step by the
/// page, whatever else is pressed.
pub proof fn lemma_key_adjusts_pages<L>(input: Input<L>)
    ensures
        input.key_pressed_home ==> key_adjusts_for(input).contains(KeyAdjust::ToMin),
        input.key_pressed_page_up ==> key_adjusts_for(input).contains(KeyAdjust::DecreaseByPage),
        input.key_pressed_page_down ==> key_adjusts_for(input).contains(
            KeyAdjust::IncreaseByPage,
        ),
{
    let a = adjust_if(input.key_pressed_left, KeyAdjust::DecreaseByStep);
    let b = adjust_if(input.key_pressed_right, KeyAdjust::IncreaseByStep);
    let c = adjust_if(input.key_pressed_up, KeyAdjust::DecreaseByStep);
    let d = adjust_if(input.key_pressed_down, KeyAdjust::IncreaseByStep);
    let e = adjust_if(input.key_pressed_page_up, KeyAdjust::DecreaseByPage);
    let f = adjust_if(input.key_pressed_page_down, KeyAdjust::IncreaseByPage);
    let g = adjust_if(input.key_pressed_home, KeyAdjust::ToMin);
    let h = adjust_if(input.key_pressed_end, KeyAdjust::ToMax);
    let p1 = a + b + c + d;
    let p2 = p1 + e;
    let p3 = p2 + f;
    let p4 = p3 + g;
    let s = key_adjusts_for(input);
    assert(s == p4 + h);
    if input.key_pressed_home {
        assert(s[p3.len() as int] == KeyAdjust::ToMin);
    }
    if input.key_pressed_page_up {
        assert(p3[p1.len() as int] == KeyAdjust::DecreaseByPage);
        assert(s[p1.len() as int] == KeyAdjust::DecreaseByPage);
    }
    if input.key_pressed_page_down {
        assert(s[p2.len() as int] == KeyAdjust::IncreaseByPage);
    }
}

fn push_if(v: &mut Vec<KeyAdjust>, pressed: bool, adjust: KeyAdjust)
    ensures
        final(v)@ == old(v)@ + adjust_if(pressed, adjust),
{
    if pressed {
        v.push(adjust);
    }
    proof {
        assert(v@ =~= old(v)@ + adjust_if(pressed, adjust));
    }
}

fn key_adjusts_from<L>(input: &Input<L>) -> (v: Vec<KeyAdjust>)
    ensures
        v@ == key_adjusts_for(*input),
{
    let mut v: Vec<KeyAdjust> = Vec::new();
    push_if(&mut v, input.key_pressed_left, KeyAdjust::DecreaseByStep);
    push_if(&mut v, input.key_pressed_right, KeyAdjust::IncreaseByStep);
    push_if(&mut v, input.key_pressed_up, KeyAdjust::DecreaseByStep);
    push_if(&mut v, input.key_pressed_down, KeyAdjust::IncreaseByStep);
    push_if(&mut v, input.key_pressed_page_up, KeyAdjust::DecreaseByPage);
    push_if(&mut v, input.key_pressed_page_down, KeyAdjust::IncreaseByPage);
    push_if(&mut v, input.key_pressed_home, KeyAdjust::ToMin);
    push_if(&mut v, input.key_pressed_end, KeyAdjust::ToMax);
    proof {
        assert(v@ =~= key_adjusts_for(*input));
    }
    v
}

/// The decisions of one frame of a drag number.
#[derive(Debug, Clone, PartialEq)]
pub struct DragNumberStep<L> {
    /// A drag began this frame; it also takes keyboard focus.
    pub begin_drag: bool,
    /// The value follows the pointer's offset from where the drag began.
    pub follow_pointer: bool,
    /// How the keys adjust the value, in order.
    pub key_adjusts: Vec<KeyAdjust>,
    /// The widget draws its focus ring.
    pub draw_focus_ring: bool,
    /// Background of the label section, before disabled tinting.
    pub text_bg: Color<L>,
    pub input: InputInfo,
}

/// Whether the drag number is dragging after this frame: a press while the
/// pointer is over it and it holds the hover starts a drag, a drag lasts
/// while the button is held, and a disabled drag number never drags.
pub open spec fn dragging_after<L>(
    was_dragging: bool,
    input: Input<L>,
    disabled: bool,
    hovered_control_area: bool,
) -> bool {
    !disabled && (was_dragging || (input.mouse_pressed && hovered_control_area))
        && input.mouse_down
}

/// One frame of pointer and key handling. `focused` is what the focus
/// system reported; a disabled drag number takes no focus, so it counts as
/// unfocused whatever is passed. `contains` is whether the pointer is over
/// the visible widget, and `hover_active` whether the widget holds the hover
/// claim after claiming it.
pub fn drag_number_interaction<L: Copy>(
    state: &mut DragNumberState<L>,
    style: &DragNumberStyle<L>,
    input: &Input<L>,
    disabled: bool,
    focused: bool,
    contains: bool,
    hover_active: bool,
) -> (step: DragNumberStep<L>)
    ensures
        step.begin_drag == (!disabled && input.mouse_pressed && contains && hover_active),
        final(state).is_dragging == dragging_after(
            old(state).is_dragging,
            *input,
            disabled,
            contains && hover_active,
        ),
        step.follow_pointer == final(state).is_dragging,
        // A drag in progress goes on while its button is held.
        !disabled && old(state).is_dragging && input.mouse_down ==> final(state).is_dragging
            && step.follow_pointer && step.input.pressed,
        // A press over the widget with the hover claim starts a drag.
        !disabled && input.mouse_pressed && input.mouse_down && contains && hover_active
            ==> final(state).is_dragging && step.follow_pointer,
        // Releasing the button, or disabling the widget, ends any drag.
        !input.mouse_down ==> !final(state).is_dragging && !step.follow_pointer,
        disabled ==> !final(state).is_dragging && !step.input.pressed,
        // Only a drag that was going on or began this frame follows the pointer.
        step.follow_pointer ==> old(state).is_dragging || step.begin_drag,
        final(state).drag_start_x == if step.begin_drag {
            input.mouse_pos.x
        } else {
            old(state).drag_start_x
        },
        final(state).drag_start_value == if step.begin_drag {
            old(state).value
        } else {
            old(state).drag_start_value
        },
        final(state).value == old(state).value,
        final(state).focus_id == old(state).focus_id,
        step.key_adjusts@ == if focused && !disabled {
            key_adjusts_for(*input)
        } else {
            Seq::<KeyAdjust>::empty()
        },
        // Without focus, or when disabled, the keys change nothing.
        !(focused && !disabled) ==> step.key_adjusts@.len() == 0,
        // Otherwise every pressed key makes one adjustment: left and up lower
        // by the step, right and down raise by it, Page Up lowers and Page
        // Down raises by the page step, Home and End go to the bounds.
        focused && !disabled ==> step.key_adjusts@.len() == one_if(input.key_pressed_left)
            + one_if(input.key_pressed_right) + one_if(input.key_pressed_up) + one_if(
            input.key_pressed_down,
        ) + one_if(input.key_pressed_page_up) + one_if(input.key_pressed_page_down) + one_if(
            input.key_pressed_home,
        ) + one_if(input.key_pressed_end),
        focused && !disabled && input.key_pressed_left ==> step.key_adjusts@[0]
            == KeyAdjust::DecreaseByStep,
        focused && !disabled && input.key_pressed_home ==> step.key_adjusts@.contains(
            KeyAdjust::ToMin,
        ),
        focused && !disabled && input.key_pressed_end ==> step.key_adjusts@.last()
            == KeyAdjust::ToMax,
        focused && !disabled && input.key_pressed_page_up ==> step.key_adjusts@.contains(
            KeyAdjust::DecreaseByPage,
        ),
        focused && !disabled && input.key_pressed_page_down ==> step.key_adjusts@.contains(
            KeyAdjust::IncreaseByPage,
        ),
        step.draw_focus_ring == ((focused || final(state).is_dragging) && !disabled),
        step.text_bg == if (focused && !disabled) || final(state).is_dragging {
            style.active_text_bg
        } else {
            style.text_bg
        },
        step.input == (InputInfo {
            hovered: contains && hover_active && !disabled && (!input.mouse_down
                || final(state).is_dragging),
            pressed: final(state).is_dragging && !disabled,
            clicked: false,
        }),
{
    if disabled {
        state.is_dragging = false;
    }
    let mut begin_drag = false;
    let mut follow_pointer = false;
    if !disabled {
        let hovered_control_area = contains && hover_active;
        if input.mouse_pressed && hovered_control_area {
            state.is_dragging = true;
            state.drag_start_x = input.mouse_pos.x;
            state.drag_start_value = state.value;
            begin_drag = true;
        }
        if state.is_dragging {
            if !input.mouse_down {
                state.is_dragging = false;
            } else {
                follow_pointer = true;
            }
        }
    }
    let keys = focused && !disabled;
    proof {
        lemma_key_adjusts_count(*input);
        lemma_key_adjusts_pages(*input);
    }
    let visually_active = keys || state.is_dragging;
    let text_bg = if visually_active {
        style.active_text_bg
    } else {
        style.text_bg
    };
    DragNumberStep {
        begin_drag,
        follow_pointer,
        key_adjusts: if keys {
            key_adjusts_from(input)
        } else {
            Vec::new()
        },
        draw_focus_ring: visually_active && !disabled,
        text_bg,
        input: InputInfo {
            hovered: contains && hover_active && !disabled && (!input.mouse_down
                || state.is_dragging),
            pressed: state.is_dragging && !disabled,
            clicked: false,
        },
    }
}

/// An enabled drag number keeps a drag in progress for as long as its
/// button is held, wherever the pointer goes.
pub proof fn lemma_drag_continues_while_held<L>(input: Input<L>, hovered_control_area: bool)
    requires
        input.mouse_down,
    ensures
        dragging_after(true, input, false, hovered_control_area),
{
}

/// A drag never outlives the held button, and a disabled drag number never
/// drags.
pub proof fn lemma_drag_needs_held_button<L>(
    was_dragging: bool,
    input: Input<L>,
    disabled: bool,
    hovered_control_area: bool,
)
    ensures
        dragging_after(was_dragging, input, disabled, hovered_control_area) ==> input.mouse_down,
        disabled ==> !dragging_after(was_dragging, input, disabled, hovered_control_area),
{
}

} // verus!
