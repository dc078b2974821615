//! Pointer events, as the interactive surfaces see them.
use vstd::prelude::*;

verus! {

/// The pointer events the interactive surfaces act on.
#[derive(Debug, Clone, Copy, PartialEq, Eq, Structural)]
pub enum PointerEvent {
    /// The primary button went down.
    Pressed,
    /// The pointer moved.
    Moved,
    /// The primary button came up.
    Released,
    /// Anything else: nothing the pointer handling acts on.
    Other,
}

} // verus!
