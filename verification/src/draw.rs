//! The command list a frame of widgets draws into.
use vstd::prelude::*;

use crate::types::{Color, Rect, Stroke, Vec2};

verus! {

/// Which side of a rectangle's edge a border is drawn on.
#[derive(Debug, Clone, Copy, PartialEq, Eq)]
pub enum BorderPlacement {
    /// Within the rectangle.
    Inside,
    /// Around the rectangle.
    Outside,
}

/// One drawing command, in the order the renderer executes them.
#[derive(Debug, Clone, Copy, PartialEq)]
pub enum DrawCmd<L> {
    /// Fill `rect` with `color` at depth `z`, with or without edge smoothing.
    FillRect { anti_alias: bool, rect: Rect<L>, color: Color<L>, z: u32 },
    /// Stroke the outline of `rect`, `width` wide, inside its edges.
    StrokeRect { anti_alias: bool, rect: Rect<L>, color: Color<L>, width: L, z: u32 },
    /// Draw a border of `width` along the edges of `rect`, on the given side.
    BorderRect { rect: Rect<L>, color: Color<L>, width: L, placement: BorderPlacement, z: u32 },
    /// Draw a line from `p0` to `p1`.
    StrokeLine { anti_alias: bool, p0: Vec2<L>, p1: Vec2<L>, color: Color<L>, width: L, z: u32 },
    /// Restrict later commands to `rect` until the matching `PopClip`.
    PushClip { rect: Rect<L> },
    /// End the innermost clip.
    PopClip,
}

/// The border command for `rect`: one `BorderRect` when there is a stroke,
/// nothing otherwise.
pub open spec fn border_command<L>(
    rect: Rect<L>,
    border: Option<Stroke<L>>,
    placement: BorderPlacement,
    z: u32,
) -> Seq<DrawCmd<L>> {
    match border {
        Some(s) => seq![
            DrawCmd::BorderRect { rect, color: s.color, width: s.width, placement, z },
        ],
        None => Seq::empty(),
    }
}

/// A focus ring: `stroke` drawn around `rect`, when `draw` holds.
pub open spec fn focus_ring_command<L>(
    draw: bool,
    rect: Rect<L>,
    stroke: Stroke<L>,
    z: u32,
) -> Seq<DrawCmd<L>> {
    if draw {
        seq![
            DrawCmd::BorderRect {
                rect,
                color: stroke.color,
                width: stroke.width,
                placement: BorderPlacement::Outside,
                z,
            },
        ]
    } else {
        Seq::empty()
    }
}

/// One when `b` holds, zero otherwise: the number of commands an optional
/// step adds.
pub open spec fn one_if(b: bool) -> int {
    if b {
        1
    } else {
        0
    }
}

/// A plain (not smoothed) fill of `rect`.
pub open spec fn fill_command<L>(rect: Rect<L>, color: Color<L>, z: u32) -> Seq<DrawCmd<L>> {
    seq![DrawCmd::FillRect { anti_alias: false, rect, color, z }]
}

/// An append-only list of draw commands whose entries may be patched in place.
#[derive(Debug, Clone, PartialEq)]
pub struct DrawCommands<L> {
    pub cmds: Vec<DrawCmd<L>>,
}

impl<L> View for DrawCommands<L> {
    type V = Seq<DrawCmd<L>>;

    open spec fn view(&self) -> Seq<DrawCmd<L>> {
        self.cmds@
    }
}

impl<L> DrawCommands<L> {
    pub fn new() -> (c: Self)
        ensures
            c@ == Seq::<DrawCmd<L>>::empty(),
    {
        DrawCommands { cmds: Vec::new() }
    }

    pub fn from_vec(cmds: Vec<DrawCmd<L>>) -> (c: Self)
        ensures
            c@ == cmds@,
    {
        DrawCommands { cmds }
    }

    pub fn len(&self) -> (n: usize)
        ensures
            n == self@.len(),
    {
        self.cmds.len()
    }

    pub fn push(&mut self, cmd: DrawCmd<L>)
        ensures
            final(self)@ == old(self)@.push(cmd),
    {
        self.cmds.push(cmd);
    }

    /// Fills `rect` without edge smoothing.
    pub fn push_fill_rect(&mut self, rect: Rect<L>, color: Color<L>, z: u32)
        ensures
            final(self)@ == old(self)@ + fill_command(rect, color, z),
    {
        self.cmds.push(DrawCmd::FillRect { anti_alias: false, rect, color, z });
        proof {
            assert(self@ =~= old(self)@ + fill_command(rect, color, z));
        }
    }

    /// Draws a focus ring of `stroke` around `rect` when `draw` holds.
    pub fn push_focus_ring(&mut self, draw: bool, rect: Rect<L>, stroke: Stroke<L>, z: u32)
        ensures
            final(self)@ == old(self)@ + focus_ring_command(draw, rect, stroke, z),
    {
        if draw {
            self.cmds.push(
                DrawCmd::BorderRect {
                    rect,
                    color: stroke.color,
                    width: stroke.width,
                    placement: BorderPlacement::Outside,
                    z,
                },
            );
        }
        proof {
            assert(self@ =~= old(self)@ + focus_ring_command(draw, rect, stroke, z));
        }
    }

    /// Draws `border` along `rect`, if there is one.
    pub fn push_border_rect(
        &mut self,
        rect: Rect<L>,
        border: Option<Stroke<L>>,
        placement: BorderPlacement,
        z: u32,
    )
        ensures
            final(self)@ == old(self)@ + border_command(rect, border, placement, z),
    {
        match border {
            Some(s) => {
                self.cmds.push(
                    DrawCmd::BorderRect { rect, color: s.color, width: s.width, placement, z },
                );
            },
            None => {},
        }
        proof {
            assert(self@ =~= old(self)@ + border_command(rect, border, placement, z));
        }
    }
}

} // verus!
