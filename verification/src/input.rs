//! The pointer and keyboard input a frame is run with.
use vstd::prelude::*;

use crate::types::Vec2;

verus! {

/// Pointer position and the button and key events of one frame.
#[derive(Debug, Clone, Copy, PartialEq, Default)]
pub struct Input<L> {
    pub mouse_pos: Vec2<L>,
    /// The primary button is held down.
    pub mouse_down: bool,
    /// The primary button went down this frame.
    pub mouse_pressed: bool,
    pub key_pressed_left: bool,
    pub key_pressed_right: bool,
    pub key_pressed_up: bool,
    pub key_pressed_down: bool,
    pub key_pressed_page_up: bool,
    pub key_pressed_page_down: bool,
    pub key_pressed_home: bool,
    pub key_pressed_end: bool,
    pub key_pressed_enter: bool,
    pub key_pressed_space: bool,
    pub key_released_space: bool,
    pub key_down_space: bool,
}

} // verus!
