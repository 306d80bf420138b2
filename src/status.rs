//! Translation of the engine's status codes into typed results.
use vstd::prelude::*;
use crate::error::WhisperError;

verus! {

/// The status code by which the engine reports success.
pub const STATUS_OK: i32 = 0;

/// The status code by which the engine reports the failure of a stage.
pub const STATUS_FAILED: i32 = -1;

/// The status of the full pipeline when its encoder failed.
pub const STATUS_ENCODE_FAILED: i32 = 7;

/// The status of the full pipeline when its decoder failed.
pub const STATUS_DECODE_FAILED: i32 = 8;

/// What a single stage's status means: success, the stage's own `failure`,
/// or any other code passed on as it is.
pub open spec fn stage_result(status: i32, failure: WhisperError) -> Result<(), WhisperError> {
    if status == STATUS_OK {
        Ok(())
    } else if status == STATUS_FAILED {
        Err(failure)
    } else {
        Err(WhisperError::GenericError(status))
    }
}

/// What the status of a full pipeline run means.
pub open spec fn full_result(status: i32) -> Result<i32, WhisperError> {
    if status == STATUS_OK {
        Ok(status)
    } else if status == STATUS_FAILED {
        Err(WhisperError::UnableToCalculateSpectrogram)
    } else if status == STATUS_ENCODE_FAILED {
        Err(WhisperError::FailedToEncode)
    } else if status == STATUS_DECODE_FAILED {
        Err(WhisperError::FailedToDecode)
    } else {
        Err(WhisperError::GenericError(status))
    }
}

/// Translates the status of a single stage, with `failure` for its own failure code.
pub fn stage_status(status: i32, failure: WhisperError) -> (r: Result<(), WhisperError>)
    ensures
        r == stage_result(status, failure),
{
    if status == STATUS_OK {
        Ok(())
    } else if status == STATUS_FAILED {
        Err(failure)
    } else {
        Err(WhisperError::GenericError(status))
    }
}

/// Translates the status of a full pipeline run.
pub fn full_status(status: i32) -> (r: Result<i32, WhisperError>)
    ensures
        r == full_result(status),
{
    if status == STATUS_OK {
        Ok(status)
    } else if status == STATUS_FAILED {
        Err(WhisperError::UnableToCalculateSpectrogram)
    } else if status == STATUS_ENCODE_FAILED {
        Err(WhisperError::FailedToEncode)
    } else if status == STATUS_DECODE_FAILED {
        Err(WhisperError::FailedToDecode)
    } else {
        Err(WhisperError::GenericError(status))
    }
}

} // verus!
