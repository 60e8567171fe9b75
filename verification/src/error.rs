//! The ways in which a sunrise/sunset calculation ends without a result.

use vstd::prelude::*;

verus! {

/// Why a calculation gave no pair of instants.
#[derive(Clone, Copy, Debug, PartialEq, Eq, Structural)]
pub enum SolarError {
    /// The date or time text does not read as a date or a time of day that
    /// exists.
    ParseError,
    /// The sun neither rises nor sets on that day at that latitude: polar day
    /// or polar night.
    NoSunriseSunset,
    /// Sunrise or sunset falls outside the observer's date on the reference
    /// clock.
    InvalidResult,
}

/// Whether `outcome` is the value that `model` describes: the same error, or
/// a success whose view is the model's.
pub open spec fn agrees<T: View>(outcome: Result<T, SolarError>, model: Result<T::V, SolarError>) -> bool {
    match model {
        Ok(expected) => outcome matches Ok(value) && value@ == expected,
        Err(expected) => outcome matches Err(error) && error == expected,
    }
}

} // verus!
