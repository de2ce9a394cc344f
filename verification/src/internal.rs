//! How computed positions are rounded.

use vstd::prelude::*;

verus! {

/// Whether positions are rounded to the resolution of an angle.
pub enum Rounding {
    /// Positions are kept as computed.
    Exact,
    /// Positions are rounded to the resolution of an angle.
    Angle,
}

} // verus!
