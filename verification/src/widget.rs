//! The state a block attaches to its label.

use vstd::prelude::*;

verus! {

/// How much attention a label asks for. A fresh label is `Idle`.
#[derive(Clone, Copy, Debug, PartialEq, Eq, Structural)]
pub enum State {
    Idle,
    Info,
    Warning,
    Critical,
}

} // verus!
