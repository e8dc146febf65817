use libc::wchar_t;
use vstd::prelude::*;

use crate::error::{
    HidError, HidResult, BLOCKING_MODE_FAILED, DETECTED_ERROR, EMPTY_REPORT,
    ERROR_MESSAGE_UNAVAILABLE, FEATURE_REPORT_INCOMPLETE, INVALID_CHAR, OPEN_FAILED, UNDETECTED_ERROR,
};
use crate::wide::{decode_wide, wchar_to_string};

verus! {

/// The number of wide characters of the buffers that device strings are
/// read into.
pub const STRING_BUF_LEN: usize = 128;

/// Whether a status returned by the C library reports failure (`-1`).
pub fn is_failure_status(res: i32) -> (r: bool)
    ensures
        r == (res == -1),
{
    res == -1
}

/// The error that a failed call reports, given what reading the device's
/// last error message gave.
pub open spec fn failure_error(last_error: HidResult<String>) -> HidError {
    match last_error {
        Ok(message) => if message@.len() == 0 {
            UNDETECTED_ERROR
        } else {
            DETECTED_ERROR
        },
        Err(_) => ERROR_MESSAGE_UNAVAILABLE,
    }
}

/// Check size returned by other methods, if it's equal to -1 check for
/// error and return Error, otherwise return size as unsigned number.
/// `last_error` is what reading the device's last error message gave; it
/// is only looked at when `res` is `-1`.
pub fn check_size(res: i32, last_error: &HidResult<String>) -> (r: HidResult<usize>)
    ensures
        res != -1 ==> r == Ok::<usize, HidError>(res as usize),
        res == -1 ==> r == Err::<usize, HidError>(failure_error(*last_error)),
{
    if res == -1 {
        match last_error {
            Ok(err) => {
                if err.as_str().is_empty() {
                    Err(UNDETECTED_ERROR)
                } else {
                    Err(DETECTED_ERROR)
                }
            },
            Err(_) => Err(ERROR_MESSAGE_UNAVAILABLE),
        }
    } else {
        Ok(res as usize)
    }
}

/// A report to send must hold at least the report ID.
pub fn check_report(data: &[u8]) -> (r: HidResult<()>)
    ensures
        data@.len() == 0 ==> r == Err::<(), HidError>(EMPTY_REPORT),
        data@.len() != 0 ==> r == Ok::<(), HidError>(()),
{
    if data.len() == 0 {
        Err(EMPTY_REPORT)
    } else {
        Ok(())
    }
}

/// The outcome of sending a feature report of `expected` bytes, given the
/// checked size that the C library reported.
pub fn feature_report_outcome(sent: HidResult<usize>, expected: usize) -> (r: HidResult<()>)
    ensures
        sent matches Err(e) ==> r == Err::<(), HidError>(e),
        sent matches Ok(n) ==> (n == expected ==> r == Ok::<(), HidError>(())) && (n != expected
            ==> r == Err::<(), HidError>(FEATURE_REPORT_INCOMPLETE)),
{
    let res = match sent {
        Ok(n) => n,
        Err(e) => return Err(e),
    };
    if res != expected {
        Err(FEATURE_REPORT_INCOMPLETE)
    } else {
        Ok(())
    }
}

/// The flag that `hid_set_nonblocking` takes for a blocking mode.
pub fn nonblocking_flag(blocking: bool) -> (r: i32)
    ensures
        r == (if blocking {
            0i32
        } else {
            1i32
        }),
{
    if blocking {
        0i32
    } else {
        1i32
    }
}

/// The outcome of setting the blocking mode, given the status that
/// `hid_set_nonblocking` returned.
pub fn blocking_mode_outcome(res: i32) -> (r: HidResult<()>)
    ensures
        res == -1 ==> r == Err::<(), HidError>(BLOCKING_MODE_FAILED),
        res != -1 ==> r == Ok::<(), HidError>(()),
{
    if res == -1 {
        Err(BLOCKING_MODE_FAILED)
    } else {
        Ok(())
    }
}

/// The outcome of opening a device, given whether the handle that the C
/// library returned is null.
pub fn open_outcome(handle_is_null: bool) -> (r: HidResult<()>)
    ensures
        handle_is_null ==> r == Err::<(), HidError>(OPEN_FAILED),
        !handle_is_null ==> r == Ok::<(), HidError>(()),
{
    if handle_is_null {
        Err(OPEN_FAILED)
    } else {
        Ok(())
    }
}

/// The string that a device wrote into `buf`, given the checked size that
/// the C library reported for the call. The string runs from the start of
/// the buffer to its first NUL; the size only bounds the part of the buffer
/// that the call claims to have filled.
pub fn buffer_string(size: HidResult<usize>, buf: &[wchar_t]) -> (r: HidResult<String>)
    requires
        size matches Ok(n) ==> n <= buf@.len(),
    ensures
        size matches Err(e) ==> r == Err::<String, HidError>(e),
        size is Ok ==> match decode_wide(buf@) {
            Some(cs) => r matches Ok(s) && s@ == cs,
            None => r == Err::<String, HidError>(INVALID_CHAR),
        },
{
    match size {
        Ok(_) => wchar_to_string(Some(buf)),
        Err(e) => Err(e),
    }
}

} // verus!
