//! Keyboard-focus identity of interactive widgets.
use vstd::prelude::*;

verus! {

/// Globally unique identity used to track keyboard focus and hover claims.
#[derive(Debug, Clone, Copy, PartialEq, Eq, Default)]
pub struct FocusId(pub u64);

} // verus!
