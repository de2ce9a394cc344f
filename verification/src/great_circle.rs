//! The side of a great circle on which a position lies.

use vstd::prelude::*;

verus! {

/// The side of a position relative to a great circle, looking along its direction.
#[derive(Clone, Copy, Debug, Eq, PartialEq, Structural)]
pub enum Side {
    LeftOf,
    RightOf,
    /// On the great circle itself.
    Neither,
}

} // verus!
