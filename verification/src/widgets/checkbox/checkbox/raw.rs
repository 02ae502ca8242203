//! Per-phase checkbox functions.
use vstd::prelude::*;

use super::{CheckboxState, CheckboxStyle, CheckedState};
use crate::layout::{SizeOffer, SizeRequest};
use crate::output::CursorIcon;
use crate::draw::{
    border_command, fill_command, focus_ring_command, one_if, BorderPlacement, DrawCmd,
    DrawCommands,
};
use crate::types::{ClipRect, Color, Layer, Rect, Stroke, Vec2};
use crate::widget::InputInfo;
use crate::widgets::checkbox::cycle::{
    is_first_position, lemma_first_position_is, lemma_next_allowed_moves, next_allowed, first_position,
};

use crate::widgets::widget_helpers::{interaction_color, spec_interaction_color};

verus! {

/// Everything the checkbox needs for one frame once layout has placed it.
#[derive(Debug, Clone, PartialEq)]
pub struct CheckboxSpec<L> {
    /// Top-left of the box.
    pub rect: Rect<L>,
    pub disabled: bool,
    pub allowed_checked_states: Vec<CheckedState>,
    pub style: CheckboxStyle<L>,
    pub clip_rect: ClipRect<L>,
    pub layer: Layer,
}

/// What the checkbox's size request depends on.
#[derive(Debug, Clone, Copy, PartialEq)]
pub struct CheckboxPreLayoutSpec<L> {
    pub style: CheckboxStyle<L>,
}

/// The checkbox's size request.
#[derive(Debug, Clone, Copy, PartialEq)]
pub struct CheckboxPreLayoutResult<L> {
    pub size_request: SizeRequest<L>,
}

/// What the checkbox reports after drawing.
#[derive(Debug, Clone, Copy, PartialEq)]
pub struct CheckboxResult<L> {
    pub input: InputInfo,
    pub focused: bool,
    pub content_bounds: Rect<L>,
    pub cursor_icon: Option<CursorIcon>,
}

/// The size this checkbox requests: a square of its style's size, whatever
/// the offer.
pub fn pre_layout_checkbox<L: Copy>(spec: &CheckboxPreLayoutSpec<L>, offer: SizeOffer<L>) -> (r:
    CheckboxPreLayoutResult<L>)
    ensures
        r.size_request == (SizeRequest {
            preferred: Some(Vec2 { x: spec.style.size, y: spec.style.size }),
        }),
{
    CheckboxPreLayoutResult { size_request: checkbox_size_request(spec, offer) }
}

fn checkbox_size_request<L: Copy>(spec: &CheckboxPreLayoutSpec<L>, _offer: SizeOffer<L>) -> (r:
    SizeRequest<L>)
    ensures
        r == (SizeRequest { preferred: Some(Vec2 { x: spec.style.size, y: spec.style.size }) }),
{
    SizeRequest::preferred(Vec2::new(spec.style.size, spec.style.size))
}

/// The first-occurrence search behind [`next_allowed_checked_state`].
fn find_next_allowed(
    current: CheckedState,
    allowed_checked_states: &[CheckedState],
    advance: bool,
) -> (next: CheckedState)
    requires
        allowed_checked_states@.len() > 0,
    ensures
        next == next_allowed(current, allowed_checked_states@, advance),
{
    let n = allowed_checked_states.len();
    let mut i: usize = 0;
    while i < n
        invariant
            0 <= i <= n,
            n == allowed_checked_states@.len(),
            forall|j: int| 0 <= j < i ==> allowed_checked_states@[j] != current,
        decreases n - i,
    {
        if allowed_checked_states[i] == current {
            proof {
                lemma_first_position_is(allowed_checked_states@, current, i as int);
            }
            if advance {
                return allowed_checked_states[(i + 1) % n];
            } else {
                return current;
            }
        }
        i += 1;
    }
    assert(!exists|k: int| is_first_position(allowed_checked_states@, current, k));
    allowed_checked_states[0]
}

/// The checked state after a frame in which the checkbox was clicked
/// (`advance`) or not. The allowed states must not be empty.
pub fn next_allowed_checked_state(
    current: CheckedState,
    allowed_checked_states: &[CheckedState],
    advance: bool,
) -> (next: CheckedState)
    requires
        allowed_checked_states@.len() > 0,
    ensures
        next == next_allowed(current, allowed_checked_states@, advance),
        allowed_checked_states@.contains(next),
        !allowed_checked_states@.contains(current) ==> next == allowed_checked_states@[0],
        allowed_checked_states@.contains(current) && !advance ==> next == current,
        // An allowed state has a first occurrence, and a click moves to the
        // state after it, wrapping round.
        allowed_checked_states@.contains(current) ==> 0 <= first_position(
            allowed_checked_states@,
            current,
        ) < allowed_checked_states@.len() && allowed_checked_states@[first_position(
            allowed_checked_states@,
            current,
        )] == current && forall|j: int|
            0 <= j < first_position(allowed_checked_states@, current)
                ==> allowed_checked_states@[j] != current,
        allowed_checked_states@.contains(current) && advance ==> next == allowed_checked_states@[(
        first_position(allowed_checked_states@, current) + 1) % (
        allowed_checked_states@.len() as int)],
{
    let next = find_next_allowed(current, allowed_checked_states, advance);
    proof {
        lemma_next_allowed_moves(current, allowed_checked_states@, advance);
    }
    next
}

/// The mark drawn inside the box.
#[derive(Debug, Clone, Copy, PartialEq, Eq)]
pub enum CheckMark {
    /// Nothing: the box is unchecked.
    Empty,
    /// A tick: the box is checked.
    Tick,
    /// A horizontal dash: the box is indeterminate.
    Dash,
}

/// How a checkbox draws this frame, once its click is applied.
#[derive(Debug, Clone, Copy, PartialEq)]
pub struct CheckboxAppearance<L> {
    /// Fill of the box, before disabled tinting.
    pub fill: Color<L>,
    pub mark: CheckMark,
    pub draw_focus_ring: bool,
}

/// Applies a frame's interaction to a checkbox and picks its look. `input`
/// and `focused` are what the press interaction reported for it (nothing
/// when it is disabled). A click moves the checked state as
/// [`next_allowed_checked_state`] says; an unchecked box picks among the
/// plain fills, any other among the selected fills, by press and hover; the
/// mark shows the state; the focus ring is drawn while the checkbox is focused and its style has one.
pub fn apply_checkbox_click<L: Copy>(
    state: &mut CheckboxState,
    style: &CheckboxStyle<L>,
    allowed_checked_states: &[CheckedState],
    input: InputInfo,
    focused: bool,
) -> (look: CheckboxAppearance<L>)
    requires
        allowed_checked_states@.len() > 0,
    ensures
        final(state).checked == next_allowed(
            old(state).checked,
            allowed_checked_states@,
            input.clicked,
        ),
        final(state).is_active == old(state).is_active,
        final(state).space_is_active == old(state).space_is_active,
        final(state).focus_id == old(state).focus_id,
        look.fill == if final(state).checked == CheckedState::Unchecked {
            spec_interaction_color(
                style.background,
                style.hovered,
                style.pressed,
                input.hovered,
                input.pressed,
            )
        } else {
            spec_interaction_color(
                style.selected_fill,
                style.selected_hovered,
                style.selected_pressed,
                input.hovered,
                input.pressed,
            )
        },
        look.mark == match final(state).checked {
            CheckedState::Unchecked => CheckMark::Empty,
            CheckedState::Checked => CheckMark::Tick,
            CheckedState::Indeterminate => CheckMark::Dash,
        },
        look.draw_focus_ring == (focused && style.focus is Some),
        // The state stays allowed; without a click an allowed state stays.
        allowed_checked_states@.contains(final(state).checked),
        !input.clicked && allowed_checked_states@.contains(old(state).checked)
            ==> final(state).checked == old(state).checked,
        // An unchecked box shows its plain fills, any other its selected
        // fills, the pressed one while pressed, else the hovered one while
        // hovered.
        final(state).checked == CheckedState::Unchecked && input.pressed ==> look.fill
            == style.pressed,
        final(state).checked == CheckedState::Unchecked && !input.pressed && input.hovered
            ==> look.fill == style.hovered,
        final(state).checked == CheckedState::Unchecked && !input.pressed && !input.hovered
            ==> look.fill == style.background,
        final(state).checked != CheckedState::Unchecked && input.pressed ==> look.fill
            == style.selected_pressed,
        final(state).checked != CheckedState::Unchecked && !input.pressed && input.hovered
            ==> look.fill == style.selected_hovered,
        final(state).checked != CheckedState::Unchecked && !input.pressed && !input.hovered
            ==> look.fill == style.selected_fill,
{
    state.checked = next_allowed_checked_state(
        state.checked,
        allowed_checked_states,
        input.clicked,
    );
    let (fill, mark) = match state.checked {
        CheckedState::Unchecked => (
            interaction_color(
                style.background,
                style.hovered,
                style.pressed,
                input.hovered,
                input.pressed,
            ),
            CheckMark::Empty,
        ),
        CheckedState::Checked => (
            interaction_color(
                style.selected_fill,
                style.selected_hovered,
                style.selected_pressed,
                input.hovered,
                input.pressed,
            ),
            CheckMark::Tick,
        ),
        CheckedState::Indeterminate => (
            interaction_color(
                style.selected_fill,
                style.selected_hovered,
                style.selected_pressed,
                input.hovered,
                input.pressed,
            ),
            CheckMark::Dash,
        ),
    };
    CheckboxAppearance { fill, mark, draw_focus_ring: focused && style.focus.is_some() }
}

/// The geometry and tinted colours of a checkbox frame, as the caller laid
/// them out (floating point).
#[derive(Debug, Clone, Copy, PartialEq)]
pub struct CheckboxPaint<L> {
    /// The box.
    pub box_rect: Rect<L>,
    /// The rect the focus ring surrounds.
    pub ring_rect: Rect<L>,
    /// The focus outline's stroke, tinted.
    pub ring: Stroke<L>,
    /// The box fill, tinted.
    pub fill: Color<L>,
    /// The box border, tinted, if the style has one.
    pub border: Option<Stroke<L>>,
    /// The mark's stroke, tinted.
    pub mark: Stroke<L>,
    /// The three points of the tick.
    pub tick_start: Vec2<L>,
    pub tick_corner: Vec2<L>,
    pub tick_end: Vec2<L>,
    /// The dash of an indeterminate box.
    pub dash_rect: Rect<L>,
    pub z: u32,
    pub focus_z: u32,
}

/// The commands of a checkbox's mark: two smoothed lines for a tick, a fill
/// in the mark colour for a dash, nothing for an empty box.
pub open spec fn mark_commands<L>(mark: CheckMark, paint: CheckboxPaint<L>) -> Seq<DrawCmd<L>> {
    match mark {
        CheckMark::Tick => seq![
            DrawCmd::StrokeLine {
                anti_alias: true,
                p0: paint.tick_start,
                p1: paint.tick_corner,
                color: paint.mark.color,
                width: paint.mark.width,
                z: paint.z,
            },
            DrawCmd::StrokeLine {
                anti_alias: true,
                p0: paint.tick_corner,
                p1: paint.tick_end,
                color: paint.mark.color,
                width: paint.mark.width,
                z: paint.z,
            },
        ],
        CheckMark::Dash => fill_command(paint.dash_rect, paint.mark.color, paint.z),
        CheckMark::Empty => Seq::empty(),
    }
}

/// The commands a checkbox draws: the focus ring when it is drawn, the box
/// fill, the box border, if any, then the mark.
pub open spec fn checkbox_commands_spec<L>(look: CheckboxAppearance<L>, paint: CheckboxPaint<L>) -> Seq<
    DrawCmd<L>,
> {
    focus_ring_command(look.draw_focus_ring, paint.ring_rect, paint.ring, paint.focus_z)
        + fill_command(paint.box_rect, paint.fill, paint.z) + border_command(
        paint.box_rect,
        paint.border,
        BorderPlacement::Inside,
        paint.z,
    ) + mark_commands(look.mark, paint)
}

/// Appends the commands a checkbox draws this frame.
pub fn checkbox_commands<L: Copy>(
    cmds: &mut DrawCommands<L>,
    look: &CheckboxAppearance<L>,
    paint: &CheckboxPaint<L>,
)
    ensures
        final(cmds)@ == old(cmds)@ + checkbox_commands_spec(*look, *paint),
        // The commands already in the list are kept.
        final(cmds)@.subrange(0, old(cmds)@.len() as int) == old(cmds)@,
        // The focus ring, when drawn, comes first, around the ring rect at
        // the focus depth.
        look.draw_focus_ring ==> final(cmds)@[old(cmds)@.len() as int] == (DrawCmd::BorderRect {
            rect: paint.ring_rect,
            color: paint.ring.color,
            width: paint.ring.width,
            placement: BorderPlacement::Outside,
            z: paint.focus_z,
        }),
        // Then the box fill.
        final(cmds)@[old(cmds)@.len() + one_if(look.draw_focus_ring)] == (DrawCmd::FillRect {
            anti_alias: false,
            rect: paint.box_rect,
            color: paint.fill,
            z: paint.z,
        }),
        // Then the border, inside the box.
        paint.border matches Some(b) ==> final(cmds)@[old(cmds)@.len() + one_if(
            look.draw_focus_ring,
        ) + 1] == (DrawCmd::BorderRect {
            rect: paint.box_rect,
            color: b.color,
            width: b.width,
            placement: BorderPlacement::Inside,
            z: paint.z,
        }),
        // An empty box draws nothing after its border.
        look.mark == CheckMark::Empty ==> final(cmds)@.len() == old(cmds)@.len() + one_if(
            look.draw_focus_ring,
        ) + 1 + one_if(paint.border is Some),
        // A dash is one fill in the mark colour, last.
        look.mark == CheckMark::Dash ==> final(cmds)@.len() == old(cmds)@.len() + one_if(
            look.draw_focus_ring,
        ) + 2 + one_if(paint.border is Some) && final(cmds)@.last() == (DrawCmd::FillRect {
            anti_alias: false,
            rect: paint.dash_rect,
            color: paint.mark.color,
            z: paint.z,
        }),
        // A tick is two smoothed lines in the mark stroke, meeting at its
        // corner, last.
        look.mark == CheckMark::Tick ==> final(cmds)@.len() == old(cmds)@.len() + one_if(
            look.draw_focus_ring,
        ) + 3 + one_if(paint.border is Some) && final(cmds)@[final(cmds)@.len() - 2] == (
        DrawCmd::StrokeLine {
            anti_alias: true,
            p0: paint.tick_start,
            p1: paint.tick_corner,
            color: paint.mark.color,
            width: paint.mark.width,
            z: paint.z,
        }) && final(cmds)@.last() == (DrawCmd::StrokeLine {
            anti_alias: true,
            p0: paint.tick_corner,
            p1: paint.tick_end,
            color: paint.mark.color,
            width: paint.mark.width,
            z: paint.z,
        }),
{
    cmds.push_focus_ring(look.draw_focus_ring, paint.ring_rect, paint.ring, paint.focus_z);
    cmds.push_fill_rect(paint.box_rect, paint.fill, paint.z);
    cmds.push_border_rect(paint.box_rect, paint.border, BorderPlacement::Inside, paint.z);
    match look.mark {
        CheckMark::Tick => {
            cmds.push(
                DrawCmd::StrokeLine {
                    anti_alias: true,
                    p0: paint.tick_start,
                    p1: paint.tick_corner,
                    color: paint.mark.color,
                    width: paint.mark.width,
                    z: paint.z,
                },
            );
            cmds.push(
                DrawCmd::StrokeLine {
                    anti_alias: true,
                    p0: paint.tick_corner,
                    p1: paint.tick_end,
                    color: paint.mark.color,
                    width: paint.mark.width,
                    z: paint.z,
                },
            );
        },
        CheckMark::Dash => {
            cmds.push_fill_rect(paint.dash_rect, paint.mark.color, paint.z);
        },
        CheckMark::Empty => {},
    }
    proof {
        assert(cmds@ =~= old(cmds)@ + checkbox_commands_spec(*look, *paint));
    }
}

/// An unchecked box draws nothing inside: its commands are exactly the ring
/// when drawn, the box fill and the border, if any.
pub proof fn lemma_empty_mark_draws_nothing<L>(look: CheckboxAppearance<L>, paint: CheckboxPaint<L>)
    requires
        look.mark == CheckMark::Empty,
    ensures
        checkbox_commands_spec(look, paint).len() == one_if(look.draw_focus_ring) + 1 + one_if(
            paint.border is Some,
        ),
        checkbox_commands_spec(look, paint)[one_if(look.draw_focus_ring)] == (DrawCmd::FillRect {
            anti_alias: false,
            rect: paint.box_rect,
            color: paint.fill,
            z: paint.z,
        }),
{
}

} // verus!
