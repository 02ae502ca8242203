//! Per-phase frame functions.
use vstd::prelude::*;

use super::FrameStyle;
use crate::draw::{one_if, DrawCmd, DrawCommands};
use crate::layout::{SizeOffer, SizeRequest};
use crate::types::{Layer, Rect};

verus! {

/// Input specification for a frame.
#[derive(Debug, Clone, Copy, PartialEq)]
pub struct FrameSpec<L> {
    pub layer: Layer,
    pub rect: Rect<L>,
    pub style: FrameStyle<L>,
}

/// What the frame's size request depends on.
#[derive(Debug, Clone, Copy, PartialEq)]
pub struct FramePreLayoutSpec<L> {
    pub style: FrameStyle<L>,
}

/// The frame's size request.
#[derive(Debug, Clone, Copy, PartialEq)]
pub struct FramePreLayoutResult<L> {
    pub size_request: SizeRequest<L>,
}

/// Where the begin step left the frame's placeholder commands.
#[derive(Debug, Clone, Copy, PartialEq, Eq)]
pub struct FrameToken {
    pub fill_index: usize,
    pub clip_index: usize,
}

/// What the begin step reports.
#[derive(Debug, Clone, Copy, PartialEq)]
pub struct FrameResult<L> {
    pub token: FrameToken,
    pub content_bounds: Rect<L>,
}

/// A frame's bounds come from its children, so before they are laid out it
/// requests the unknown size, whatever the offer.
pub fn pre_layout_frame<L>(spec: &FramePreLayoutSpec<L>, offer: SizeOffer<L>) -> (r:
    FramePreLayoutResult<L>)
    ensures
        r.size_request == SizeRequest::<L>::spec_unknown(),
{
    FramePreLayoutResult { size_request: frame_size_request(spec, offer) }
}

fn frame_size_request<L>(spec: &FramePreLayoutSpec<L>, _offer: SizeOffer<L>) -> (r: SizeRequest<
    L,
>)
    ensures
        r == SizeRequest::<L>::spec_unknown(),
{
    SizeRequest::unknown()
}

/// The placeholders recorded in `token` are still a background fill and a
/// clip, at their recorded positions.
pub open spec fn placeholders_intact<L>(cmds: Seq<DrawCmd<L>>, token: FrameToken) -> bool {
    &&& token.fill_index < cmds.len()
    &&& cmds[token.fill_index as int] is FillRect
    &&& token.clip_index < cmds.len()
    &&& cmds[token.clip_index as int] is PushClip
}

/// The commands after the begin step: the background fill over the whole
/// rect, then the clip to the content area.
pub open spec fn begin_commands<L>(
    cmds: Seq<DrawCmd<L>>,
    spec: FrameSpec<L>,
    content: Rect<L>,
) -> Seq<DrawCmd<L>> {
    cmds + seq![
        DrawCmd::FillRect {
            anti_alias: false,
            rect: spec.rect,
            color: spec.style.background,
            z: spec.layer.z,
        },
        DrawCmd::PushClip { rect: content },
    ]
}

/// The border a frame draws over its rect at its depth, if its style has one.
pub open spec fn border_commands<L>(spec: FrameSpec<L>) -> Seq<DrawCmd<L>> {
    match spec.style.border {
        Some(stroke) => seq![
            DrawCmd::StrokeRect {
                anti_alias: false,
                rect: spec.rect,
                color: stroke.color,
                width: stroke.width,
                z: spec.layer.z,
            },
        ],
        None => Seq::empty(),
    }
}

/// The commands after the end step: the fill is moved to `draw_rect`
/// (keeping its smoothing, colour and depth), the clip to `content`, the
/// clip is closed, and then the border is drawn, on top of and outside the
/// clip.
pub open spec fn end_commands<L>(
    cmds: Seq<DrawCmd<L>>,
    token: FrameToken,
    spec: FrameSpec<L>,
    draw_rect: Rect<L>,
    content: Rect<L>,
) -> Seq<DrawCmd<L>> {
    let fill = cmds[token.fill_index as int];
    cmds.update(
        token.fill_index as int,
        DrawCmd::FillRect {
            anti_alias: fill->FillRect_anti_alias,
            rect: draw_rect,
            color: fill->FillRect_color,
            z: fill->FillRect_z,
        },
    ).update(token.clip_index as int, DrawCmd::PushClip { rect: content }).push(
        DrawCmd::PopClip,
    ) + border_commands(spec)
}

/// Begin step of a frame: pushes the background fill and the clip to
/// `content` (the rect inset by border and padding) as placeholders, and
/// records where they are.
pub fn begin_frame_commands<L: Copy>(spec: FrameSpec<L>, content: Rect<L>, cmds: &mut DrawCommands<L>) -> (res:
    FrameResult<L>)
    ensures
        final(cmds)@ == begin_commands(old(cmds)@, spec, content),
        res.token.fill_index == old(cmds)@.len(),
        res.token.clip_index == old(cmds)@.len() + 1,
        res.content_bounds == content,
        placeholders_intact(final(cmds)@, res.token),
        // Exactly the fill over the frame's rect and the clip to its content
        // are appended, in that order.
        final(cmds)@.len() == old(cmds)@.len() + 2,
        final(cmds)@.subrange(0, old(cmds)@.len() as int) == old(cmds)@,
        final(cmds)@[old(cmds)@.len() as int] == (DrawCmd::FillRect {
            anti_alias: false,
            rect: spec.rect,
            color: spec.style.background,
            z: spec.layer.z,
        }),
        final(cmds)@[old(cmds)@.len() as int + 1] == (DrawCmd::PushClip { rect: content }),
{
    let fill_index = cmds.len();
    cmds.push(
        DrawCmd::FillRect {
            anti_alias: false,
            rect: spec.rect,
            color: spec.style.background,
            z: spec.layer.z,
        },
    );
    let clip_index = cmds.len();
    cmds.push(DrawCmd::PushClip { rect: content });
    FrameResult { token: FrameToken { fill_index, clip_index }, content_bounds: content }
}

/// End step of a frame, given the same spec as the begin step with its rect
/// set to the final bounds: patches the placeholders recorded in `token`
/// with `draw_rect` (the final rect as drawn) and `content` (the final rect
/// inset by border and padding), closes the clip, then draws the border, if
/// any, over the final rect. The placeholders must still be in place.
pub fn end_frame_commands<L: Copy>(
    token: FrameToken,
    spec: FrameSpec<L>,
    draw_rect: Rect<L>,
    content: Rect<L>,
    cmds: &mut DrawCommands<L>,
)
    requires
        placeholders_intact(old(cmds)@, token),
    ensures
        final(cmds)@ == end_commands(old(cmds)@, token, spec, draw_rect, content),
        // The fill is moved to the drawn rect, keeping its smoothing, colour
        // and depth; the clip is moved to the content rect.
        final(cmds)@[token.fill_index as int] == (DrawCmd::FillRect {
            anti_alias: old(cmds)@[token.fill_index as int]->FillRect_anti_alias,
            rect: draw_rect,
            color: old(cmds)@[token.fill_index as int]->FillRect_color,
            z: old(cmds)@[token.fill_index as int]->FillRect_z,
        }),
        final(cmds)@[token.clip_index as int] == (DrawCmd::PushClip { rect: content }),
        // Every other earlier command is kept.
        forall|i: int|
            0 <= i < old(cmds)@.len() && i != token.fill_index && i != token.clip_index
                ==> #[trigger] final(cmds)@[i] == old(cmds)@[i],
        // Then the clip is closed and the border, if any, drawn last, on
        // top of and outside the clip.
        final(cmds)@.len() == old(cmds)@.len() + 1 + one_if(spec.style.border is Some),
        final(cmds)@[old(cmds)@.len() as int] == DrawCmd::<L>::PopClip,
        spec.style.border matches Some(b) ==> final(cmds)@.last() == (DrawCmd::StrokeRect {
            anti_alias: false,
            rect: spec.rect,
            color: b.color,
            width: b.width,
            z: spec.layer.z,
        }),
{
    let fill = cmds.cmds[token.fill_index];
    match fill {
        DrawCmd::FillRect { anti_alias, color, z, .. } => {
            cmds.cmds[token.fill_index] = DrawCmd::FillRect { anti_alias, rect: draw_rect, color, z };
        },
        _ => {},
    }
    cmds.cmds[token.clip_index] = DrawCmd::PushClip { rect: content };
    cmds.cmds.push(DrawCmd::PopClip);
    match spec.style.border {
        Some(stroke) => {
            cmds.cmds.push(
                DrawCmd::StrokeRect {
                    anti_alias: false,
                    rect: spec.rect,
                    color: stroke.color,
                    width: stroke.width,
                    z: spec.layer.z,
                },
            );
        },
        None => {},
    }
    proof {
        assert(final(cmds)@ =~= end_commands(old(cmds)@, token, spec, draw_rect, content));
    }
}

/// Commands appended after a frame began leave its placeholders in place,
/// so its end step can always run.
pub proof fn lemma_placeholders_survive_appends<L>(
    cmds: Seq<DrawCmd<L>>,
    appended: Seq<DrawCmd<L>>,
    token: FrameToken,
)
    requires
        placeholders_intact(cmds, token),
    ensures
        placeholders_intact(cmds + appended, token),
{
    assert((cmds + appended)[token.fill_index as int] == cmds[token.fill_index as int]);
    assert((cmds + appended)[token.clip_index as int] == cmds[token.clip_index as int]);
}

/// A frame nested inside another begins and ends entirely after the outer
/// frame's placeholders, so the outer frame can still end.
pub proof fn lemma_nested_frame_keeps_outer_placeholders<L>(
    cmds: Seq<DrawCmd<L>>,
    outer: FrameToken,
    inner: FrameSpec<L>,
    inner_content: Rect<L>,
    inner_token: FrameToken,
    between: Seq<DrawCmd<L>>,
    inner_final: FrameSpec<L>,
    inner_draw_rect: Rect<L>,
    inner_final_content: Rect<L>,
)
    requires
        placeholders_intact(cmds, outer),
        inner_token.fill_index == cmds.len(),
        inner_token.clip_index == cmds.len() + 1,
    ensures
        ({
            let begun = begin_commands(cmds, inner, inner_content);
            let ended = end_commands(
                begun + between,
                inner_token,
                inner_final,
                inner_draw_rect,
                inner_final_content,
            );
            placeholders_intact(ended, outer)
        }),
{
    let begun = begin_commands(cmds, inner, inner_content);
    let s = begun + between;
    assert(s[outer.fill_index as int] == cmds[outer.fill_index as int]);
    assert(s[outer.clip_index as int] == cmds[outer.clip_index as int]);
}

} // verus!
