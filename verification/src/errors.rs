//! Error types for the drawing core.
//!
//! Every fallible operation reports its failure to the immediate caller
//! through one of these kinds; none is silently swallowed.

use vstd::prelude::*;

verus! {

/// The display server could not be reached or the handshake failed.
#[derive(Clone, Copy, Debug, PartialEq, Eq, Structural)]
pub struct ConnectionError;

/// A screen index is out of range of the configured screens.
#[derive(Clone, Copy, Debug, PartialEq, Eq, Structural)]
pub struct ScreenError;

/// Window creation failed: no configured screen to create against, a failed
/// creation or property-set request, or a failed surface binding (such as a
/// visual-type lookup miss).
#[derive(Clone, Copy, Debug, PartialEq, Eq, Structural)]
pub struct WindowError;

/// A drawing context was requested for a window id with no registered
/// surface.
#[derive(Clone, Copy, Debug, PartialEq, Eq, Structural)]
pub struct ContextError;

/// A font name was selected that was never registered.
#[derive(Clone, Copy, Debug, PartialEq, Eq, Structural)]
pub struct FontError;

/// The rendering backend could not create a text-layout object.
#[derive(Clone, Copy, Debug, PartialEq, Eq, Structural)]
pub struct TextError;

} // verus!
