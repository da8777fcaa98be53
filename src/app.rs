//! What an application tells its run loop after each step.

use vstd::prelude::*;

verus! {

/// Whether the run loop goes on or ends.
#[derive(Debug, Copy, Clone, PartialEq, Eq, Structural)]
pub enum AppState {
    Continue,
    Exit,
}

} // verus!
