//! Immediate-mode widget toolkit: the data model of every widget and the
//! decisions that do not depend on floating-point arithmetic.
pub mod focus;
pub mod layout;
pub mod output;
pub mod text;
pub mod types;
pub mod widget;
pub mod theme;
pub mod draw;
pub mod widgets;
pub mod input;
