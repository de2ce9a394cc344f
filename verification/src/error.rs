//! Errors of position calculations.

use vstd::prelude::*;
use vstd::string::*;

verus! {

/// Why a position calculation has no result.
#[derive(Debug, Clone, Copy, PartialEq, Eq, Structural)]
pub enum Error {
    CoincidentalGreatCircles,
    AntipodalPositions,
    CoincidentalPositions,
    NotEnoughPositions,
    OutOfRange,
}

/// The name of an error variant.
pub open spec fn error_name(e: Error) -> Seq<char> {
    match e {
        Error::CoincidentalGreatCircles => "CoincidentalGreatCircles"@,
        Error::AntipodalPositions => "AntipodalPositions"@,
        Error::CoincidentalPositions => "CoincidentalPositions"@,
        Error::NotEnoughPositions => "NotEnoughPositions"@,
        Error::OutOfRange => "OutOfRange"@,
    }
}

/// The text of each error is the name of its variant.
pub proof fn lemma_error_names()
    ensures
        error_name(Error::CoincidentalGreatCircles) == "CoincidentalGreatCircles"@,
        error_name(Error::AntipodalPositions) == "AntipodalPositions"@,
        error_name(Error::CoincidentalPositions) == "CoincidentalPositions"@,
        error_name(Error::NotEnoughPositions) == "NotEnoughPositions"@,
        error_name(Error::OutOfRange) == "OutOfRange"@,
{
}

impl Error {
    /// The text of this error: the name of its variant.
    pub fn to_string(&self) -> (r: String)
        ensures
            r@ == error_name(*self),
    {
        match self {
            Error::CoincidentalGreatCircles => String::from_str("CoincidentalGreatCircles"),
            Error::AntipodalPositions => String::from_str("AntipodalPositions"),
            Error::CoincidentalPositions => String::from_str("CoincidentalPositions"),
            Error::NotEnoughPositions => String::from_str("NotEnoughPositions"),
            Error::OutOfRange => String::from_str("OutOfRange"),
        }
    }
}

} // verus!
