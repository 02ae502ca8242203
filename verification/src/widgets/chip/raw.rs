//! Per-phase chip functions.
//!
//! A chip is clicked by the pointer, by Enter while it is focused, or by
//! releasing a space bar that was pressed while it was focused; each click
//! flips its checked state.
use vstd::prelude::*;

use super::{ChipState, ChipStyle};
use crate::input::Input;
use crate::layout::{SizeOffer, SizeRequest};
use crate::types::{ClipRect, Layer, Rect, Vec2};
use crate::widget::InputInfo;

verus! {

/// Everything the chip needs for one frame once layout has placed it.
#[derive(Debug, Clone, Copy, PartialEq)]
pub struct ChipSpec<'a, L> {
    pub layer: Layer,
    pub rect: Rect<L>,
    pub text: &'a str,
    pub style: ChipStyle<L>,
    pub disabled: bool,
    pub clip_rect: ClipRect<L>,
}

/// What the chip's size request depends on.
#[derive(Debug, Clone, Copy, PartialEq)]
pub struct ChipSizeSpec<'a, L> {
    pub text: &'a str,
    pub style: ChipStyle<L>,
}

/// What the chip reports after drawing.
#[derive(Debug, Clone, Copy, PartialEq)]
pub struct ChipResult<L> {
    pub input: InputInfo,
    pub focused: bool,
    pub content_bounds: Rect<L>,
}

/// The size this chip requests: exactly the logical size of its text,
/// whatever the offer. `text_size` is the logical size the text backend
/// measured for `spec.text` in `spec.style.text_style` without bounds.
pub fn size_chip<'a, L>(spec: &ChipSizeSpec<'a, L>, offer: SizeOffer<L>, text_size: Vec2<L>) -> (r:
    SizeRequest<L>)
    ensures
        r == (SizeRequest { preferred: Some(text_size) }),
{
    SizeRequest::preferred(text_size)
}

/// Whether the chip is clicked this frame: by the pointer (`clicked`), by
/// Enter while focused, or by releasing a space bar that was active.
pub open spec fn chip_clicked<L>(
    space_was_active: bool,
    input: Input<L>,
    focused: bool,
    clicked: bool,
) -> bool {
    ||| clicked
    ||| focused && input.key_pressed_enter
    ||| space_was_active && input.key_released_space
}

/// The checked state after a frame: flipped when the chip was clicked.
pub open spec fn toggle_on_click(checked: bool, clicked: bool) -> bool {
    if clicked {
        !checked
    } else {
        checked
    }
}

/// Whether the space bar keeps the chip active after this frame: it stays
/// active only while the chip is focused and space is held, and becomes
/// active when space is pressed on the focused chip.
pub open spec fn chip_space_active<L>(space_was_active: bool, input: Input<L>, focused: bool) -> bool {
    ||| space_was_active && focused && input.key_down_space
    ||| focused && input.key_pressed_space
}

/// Keyboard and click handling of a chip for one frame. `focused` and
/// `clicked` are what the focus system reported for the chip (both false
/// when it is disabled) and `hovered` whether the pointer is over it.
pub fn chip_interaction<L>(
    state: &mut ChipState,
    input: &Input<L>,
    focused: bool,
    clicked: bool,
    hovered: bool,
) -> (info: InputInfo)
    ensures
        final(state).checked == toggle_on_click(
            old(state).checked,
            chip_clicked(old(state).space_is_active, *input, focused, clicked),
        ),
        final(state).space_is_active == chip_space_active(old(state).space_is_active, *input, focused),
        final(state).focus_id == old(state).focus_id,
        info == (InputInfo {
            hovered,
            pressed: (clicked && input.mouse_down) || final(state).space_is_active,
            clicked: chip_clicked(old(state).space_is_active, *input, focused, clicked),
        }),
        // Space held on a focused chip keeps it space-active and pressed.
        old(state).space_is_active && focused && input.key_down_space
            ==> final(state).space_is_active && info.pressed,
        // Pressing Space on a focused chip makes it space-active.
        focused && input.key_pressed_space ==> final(state).space_is_active,
        // Losing focus, or Space neither down nor pressed, ends it.
        !focused ==> !final(state).space_is_active,
        !input.key_down_space && !input.key_pressed_space ==> !final(state).space_is_active,
        // Releasing an active Space clicks the chip and flips it.
        old(state).space_is_active && input.key_released_space ==> info.clicked,
        info.clicked == (clicked || (focused && input.key_pressed_enter)
            || (old(state).space_is_active && input.key_released_space)),
        final(state).checked == (old(state).checked != info.clicked),
{
    let mut is_clicked = clicked;
    if focused && input.key_pressed_enter {
        is_clicked = true;
    }
    if state.space_is_active && input.key_released_space {
        is_clicked = true;
    }
    if !focused || !input.key_down_space {
        state.space_is_active = false;
    }
    if focused && input.key_pressed_space {
        state.space_is_active = true;
    }
    if is_clicked {
        state.checked = !state.checked;
    }
    InputInfo {
        hovered,
        pressed: (clicked && input.mouse_down) || state.space_is_active,
        clicked: is_clicked,
    }
}

/// While a focused chip's Space stays down, its space activation carries
/// over from one frame to the next, whatever else the frame holds.
pub proof fn lemma_space_hold_keeps_active<L>(input: Input<L>)
    requires
        input.key_down_space,
    ensures
        chip_space_active(true, input, true),
{
}

/// Releasing Space on a space-active chip clicks it, focused or not, and the
/// click flips its checked state.
pub proof fn lemma_space_release_clicks<L>(input: Input<L>, focused: bool, clicked: bool, checked: bool)
    requires
        input.key_released_space,
    ensures
        chip_clicked(true, input, focused, clicked),
        toggle_on_click(checked, chip_clicked(true, input, focused, clicked)) == !checked,
{
}

/// The space bar's hold on a chip ends when the chip loses focus.
pub proof fn lemma_space_needs_focus<L>(space_was_active: bool, input: Input<L>)
    ensures
        !chip_space_active(space_was_active, input, false),
{
}

/// Two frames in which a chip is clicked leave its checked state as it was.
pub proof fn lemma_two_clicks_restore(checked: bool)
    ensures
        toggle_on_click(toggle_on_click(checked, true), true) == checked,
{
}

} // verus!
