//! The bounds on a description's length.
use vstd::prelude::*;
use vstd::string::StrSliceExecFns;
use crate::error::ErrorCode;

verus! {

/// The most characters a description may have.
pub const MAX_DESCRIPTION_LENGTH: usize = 500;

/// The fewest characters a description may have.
pub const MIN_DESCRIPTION_LENGTH: usize = 5;

/// The error that a description's length earns, if any. Length is the number
/// of characters, not of bytes.
pub open spec fn description_length_error(description: Seq<char>) -> Option<ErrorCode> {
    if description.len() > MAX_DESCRIPTION_LENGTH {
        Some(ErrorCode::DescriptionTooLong)
    } else if description.len() < MIN_DESCRIPTION_LENGTH {
        Some(ErrorCode::DescriptionTooShort)
    } else {
        None
    }
}

/// Accepts a description of 5 to 500 characters, and says of any other whether
/// it is too long or too short.
pub fn validate_description_length(description: &String) -> (r: Result<(), ErrorCode>)
    ensures
        r == match description_length_error(description@) {
            Some(e) => Err::<(), ErrorCode>(e),
            None => Ok(()),
        },
{
    let len: usize = description.as_str().unicode_len();
    if len > MAX_DESCRIPTION_LENGTH {
        Err(ErrorCode::DescriptionTooLong)
    } else if len < MIN_DESCRIPTION_LENGTH {
        Err(ErrorCode::DescriptionTooShort)
    } else {
        Ok(())
    }
}

} // verus!
