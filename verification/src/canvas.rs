//! The windowing collaborator's error surface. Opening the window, pumping
//! OS events and presenting frames are the host's work against a native
//! windowing library; this core only defines how the failures of that work
//! are reported to it.

use vstd::prelude::*;

verus! {

/// Why the host's windowing backend could not be brought up: each step of
/// the bring-up — window, GL context, event pump — can fail on its own.
#[derive(Copy, Clone, PartialEq, Eq, Structural, Debug)]
pub enum CanvasError {
    CreatingWindowFailed,
    CreatingContextFailed,
    CreatingEventHandlerFailed,
}

} // verus!
