//! Geometry and colour vocabulary shared by every widget.
//!
//! All lengths and colour channels are carried by the scalar type `L`
//! (the renderer uses `f32`). The library never computes with `L`: it only
//! moves such values between specs, styles and results, so every contract
//! here is exact whatever scalar the caller picks.
use vstd::prelude::*;

verus! {

/// A 2D vector or size.
#[derive(Debug, Clone, Copy, PartialEq, Default)]
pub struct Vec2<L> {
    pub x: L,
    pub y: L,
}

impl<L> Vec2<L> {
    pub fn new(x: L, y: L) -> (v: Self)
        ensures
            v.x == x,
            v.y == y,
    {
        Vec2 { x, y }
    }
}

/// An axis-aligned rectangle given by its top-left corner and its extent.
#[derive(Debug, Clone, Copy, PartialEq, Default)]
pub struct Rect<L> {
    pub x: L,
    pub y: L,
    pub w: L,
    pub h: L,
}

impl<L> Rect<L> {
    pub fn new(x: L, y: L, w: L, h: L) -> (r: Self)
        ensures
            r == (Rect { x, y, w, h }),
    {
        Rect { x, y, w, h }
    }
}

/// Optional clip rectangle; `None` means nothing is clipped.
pub type ClipRect<L> = Option<Rect<L>>;

/// A colour given by its linear RGBA channels.
#[derive(Debug, Clone, Copy, PartialEq, Default)]
pub struct Color<L> {
    pub r: L,
    pub g: L,
    pub b: L,
    pub a: L,
}

impl<L> Color<L> {
    /// Builds a colour from linear channels.
    pub fn linear_rgba(r: L, g: L, b: L, a: L) -> (c: Self)
        ensures
            c == (Color { r, g, b, a }),
    {
        Color { r, g, b, a }
    }
}

/// A line of a given colour and width.
#[derive(Debug, Clone, Copy, PartialEq, Default)]
pub struct Stroke<L> {
    pub color: Color<L>,
    pub width: L,
}

impl<L> Stroke<L> {
    pub fn new(color: Color<L>, width: L) -> (s: Self)
        ensures
            s == (Stroke { color, width }),
    {
        Stroke { color, width }
    }
}

/// A focus outline: a stroke drawn `offset` outside the widget's border box.
#[derive(Debug, Clone, Copy, PartialEq, Default)]
pub struct Outline<L> {
    pub stroke: Stroke<L>,
    pub offset: L,
}

impl<L> Outline<L> {
    pub fn new(color: Color<L>, width: L, offset: L) -> (o: Self)
        ensures
            o == (Outline { stroke: Stroke { color, width }, offset }),
    {
        Outline { stroke: Stroke { color, width }, offset }
    }
}

/// The drawing layer of a widget: the z order its commands are emitted at.
#[derive(Debug, Clone, Copy, PartialEq, Eq, Default)]
pub struct Layer {
    pub z: u32,
}

impl Layer {
    pub fn get_z(&self) -> (z: u32)
        ensures
            z == self.z,
    {
        self.z
    }
}

} // verus!
