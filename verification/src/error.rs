//! What generation can refuse.

use vstd::prelude::*;

verus! {

/// The reasons for which the library refuses a request.
#[derive(Debug, Clone, Copy, PartialEq, Eq, Structural)]
pub enum GenError {
    /// Leaves were asked of a family that has none: only handlers and
    /// properties come as a set.
    InvalidFamilyForLeafGeneration,
    /// More leaves were asked for than there are letters to name them.
    OrdinalOutOfRange,
    /// The output directory is already there and may not be overwritten.
    TargetExists,
}

/// The text that reports an error to the user.
pub open spec fn message(e: GenError) -> Seq<char> {
    match e {
        GenError::InvalidFamilyForLeafGeneration => "Invalid contract type in generate_parents"@,
        GenError::OrdinalOutOfRange => "Too many contracts requested, at most 26 can be named"@,
        GenError::TargetExists => "Fuzz test folder already exists, did you mean --overwrite ?"@,
    }
}

impl GenError {
    /// The text that reports the error to the user.
    pub fn to_string(&self) -> (r: String)
        ensures
            r@ == message(*self),
    {
        match self {
            GenError::InvalidFamilyForLeafGeneration => {
                "Invalid contract type in generate_parents".to_string()
            },
            GenError::OrdinalOutOfRange => {
                "Too many contracts requested, at most 26 can be named".to_string()
            },
            GenError::TargetExists => {
                "Fuzz test folder already exists, did you mean --overwrite ?".to_string()
            },
        }
    }
}

} // verus!
