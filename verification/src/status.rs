//! Status codes: what every operation of the engine returns.
//!
//! Positive codes report progress, negative codes report failure, and no
//! operation returns zero.

use vstd::prelude::*;

verus! {

/// The outcome of an operation, as a number.
pub type SquashStatus = i32;

/// The operation completed; all input that was offered has been consumed.
pub const SQUASH_OK: SquashStatus = 1;

/// Progress was made, but the output window filled before the input ran out:
/// drain the output and repeat the operation.
pub const SQUASH_PROCESSING: SquashStatus = 2;

/// Decompression reached the logical end of the compressed payload.
pub const SQUASH_END_OF_STREAM: SquashStatus = 3;

/// The operation failed for a reason that has no code of its own.
pub const SQUASH_FAILED: SquashStatus = -1;

/// The codec could not be initialized.
pub const SQUASH_UNABLE_TO_LOAD: SquashStatus = -2;

/// A parameter (such as an option key) is not valid.
pub const SQUASH_BAD_PARAM: SquashStatus = -3;

/// A value (such as the text of an option) is not valid.
pub const SQUASH_BAD_VALUE: SquashStatus = -4;

/// Not enough memory.
pub const SQUASH_MEMORY: SquashStatus = -5;

/// The output buffer cannot hold the result.
pub const SQUASH_BUFFER_FULL: SquashStatus = -6;

/// The input buffer holds nothing to read.
pub const SQUASH_BUFFER_EMPTY: SquashStatus = -7;

/// The operation is not valid in the state the stream is in.
pub const SQUASH_STATE: SquashStatus = -8;

/// The codec does not offer the operation.
pub const SQUASH_INVALID_OPERATION: SquashStatus = -9;

/// No codec of that name or extension is known.
pub const SQUASH_NOT_FOUND: SquashStatus = -10;

/// A buffer handed to the operation is not usable.
pub const SQUASH_INVALID_BUFFER: SquashStatus = -11;

/// Reading from a source or writing to a sink failed.
pub const SQUASH_IO: SquashStatus = -12;

/// A value is well formed but outside the range that is allowed.
pub const SQUASH_RANGE: SquashStatus = -13;

/// Whether `status` reports a failure.
pub open spec fn squash_status_is_error(status: SquashStatus) -> bool {
    status < 0
}

/// Whether `status` is a status that a function of a codec may return: one
/// of the three codes of progress, or any negative code.
pub open spec fn squash_status_is_reply(status: SquashStatus) -> bool {
    status < 0 || (SQUASH_OK <= status <= SQUASH_END_OF_STREAM)
}

/// The text that describes `status`.
pub open spec fn squash_status_text(status: SquashStatus) -> Seq<char> {
    if status == SQUASH_OK {
        "Operation completed successfully"@
    } else if status == SQUASH_PROCESSING {
        "Operation partially completed"@
    } else if status == SQUASH_END_OF_STREAM {
        "End of stream reached"@
    } else if status == SQUASH_FAILED {
        "Operation failed"@
    } else if status == SQUASH_UNABLE_TO_LOAD {
        "Unable to load the requested resource"@
    } else if status == SQUASH_BAD_PARAM {
        "One or more of the parameters were not valid"@
    } else if status == SQUASH_BAD_VALUE {
        "One or more parameter values was not valid"@
    } else if status == SQUASH_MEMORY {
        "Not enough memory is available"@
    } else if status == SQUASH_BUFFER_FULL {
        "Insufficient space in buffer"@
    } else if status == SQUASH_BUFFER_EMPTY {
        "Unable to read from buffer"@
    } else if status == SQUASH_STATE {
        "Performing the requested operation from the current state is not supported"@
    } else if status == SQUASH_INVALID_OPERATION {
        "The requested operation is not available"@
    } else if status == SQUASH_NOT_FOUND {
        "The requested codec could not be found"@
    } else if status == SQUASH_INVALID_BUFFER {
        "Invalid buffer"@
    } else if status == SQUASH_IO {
        "I/O error"@
    } else if status == SQUASH_RANGE {
        "Value outside of the allowable range"@
    } else {
        "Unknown."@
    }
}

/// Whether `status` reports a failure.
pub fn squash_status_failed(status: SquashStatus) -> (failed: bool)
    ensures
        failed == squash_status_is_error(status),
{
    status < 0
}

/// A human-readable reason for `status`; `"Unknown."` for a number that is no
/// status code.
pub fn squash_status_to_string(status: SquashStatus) -> (text: &'static str)
    ensures
        text@ == squash_status_text(status),
{
    if status == SQUASH_OK {
        "Operation completed successfully"
    } else if status == SQUASH_PROCESSING {
        "Operation partially completed"
    } else if status == SQUASH_END_OF_STREAM {
        "End of stream reached"
    } else if status == SQUASH_FAILED {
        "Operation failed"
    } else if status == SQUASH_UNABLE_TO_LOAD {
        "Unable to load the requested resource"
    } else if status == SQUASH_BAD_PARAM {
        "One or more of the parameters were not valid"
    } else if status == SQUASH_BAD_VALUE {
        "One or more parameter values was not valid"
    } else if status == SQUASH_MEMORY {
        "Not enough memory is available"
    } else if status == SQUASH_BUFFER_FULL {
        "Insufficient space in buffer"
    } else if status == SQUASH_BUFFER_EMPTY {
        "Unable to read from buffer"
    } else if status == SQUASH_STATE {
        "Performing the requested operation from the current state is not supported"
    } else if status == SQUASH_INVALID_OPERATION {
        "The requested operation is not available"
    } else if status == SQUASH_NOT_FOUND {
        "The requested codec could not be found"
    } else if status == SQUASH_INVALID_BUFFER {
        "Invalid buffer"
    } else if status == SQUASH_IO {
        "I/O error"
    } else if status == SQUASH_RANGE {
        "Value outside of the allowable range"
    } else {
        "Unknown."
    }
}

/// The one place through which every failure that the engine itself detects
/// passes on its way to the caller. It hands `status` back unchanged.
pub fn squash_error(status: SquashStatus) -> (same: SquashStatus)
    ensures
        same == status,
{
    status
}

} // verus!
