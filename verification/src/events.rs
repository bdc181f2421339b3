//! Events that controls of this layer can raise.

use vstd::prelude::*;

verus! {

/// An event a bound control can receive from the windowing system.
#[derive(Clone, Copy, Debug, PartialEq, Eq, Structural)]
pub enum Event {
    /// The control was destroyed.
    Destroyed,
}

} // verus!
