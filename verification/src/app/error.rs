//! The errors the application reports.
use vstd::prelude::*;

verus! {

/// An error of the running application.
#[derive(Clone, Copy, Debug, PartialEq, Eq, Structural)]
pub enum ShaooohError {
    UnexpectedEndOfLoop,
    CommunicationError,
    ProcessingError,
}

impl ShaooohError {
    /// The text shown for the error.
    pub fn message(&self) -> (r: String)
        ensures
            r@ == match self {
                ShaooohError::CommunicationError => "Communication Error"@,
                ShaooohError::UnexpectedEndOfLoop => "Unexpected End of Loop"@,
                ShaooohError::ProcessingError => "Processing Error"@,
            },
    {
        match self {
            ShaooohError::CommunicationError => String::from_str("Communication Error"),
            ShaooohError::UnexpectedEndOfLoop => String::from_str("Unexpected End of Loop"),
            ShaooohError::ProcessingError => String::from_str("Processing Error"),
        }
    }
}

} // verus!
