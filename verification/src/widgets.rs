//! The widgets. Each widget module holds its spec, style, state and result
//! types; its `raw` module holds the per-phase functions.
pub mod checkbox;
pub mod label;
pub mod divider;
pub mod color_swatch;
pub mod frame;
pub mod keycap;
pub mod meter;
pub mod button;
pub mod chip;
pub mod drag_number;
pub mod menu;
pub mod widget_helpers;
