use vstd::prelude::*;

verus! {

/// Errors are static messages.
pub type HidError = &'static str;

/// The result of every fallible operation of the library.
pub type HidResult<T> = Result<T, HidError>;

/// A wide string was read from a null pointer.
pub const NULL_POINTER: &'static str = "Null pointer!";

/// A code unit of a wide string is not a Unicode scalar value.
pub const INVALID_CHAR: &'static str = "Unable to add next char";

} // verus!

verus! {

/// A second context was requested while one is open.
pub const ALREADY_IN_USE: &'static str = "HidApi already in use";

/// `hid_init` failed.
pub const INIT_FAILED: &'static str = "Failed to init hid";

} // verus!

verus! {

/// The device reported a failure and left an empty error message.
pub const UNDETECTED_ERROR: &'static str = "Undetected error";

/// The device reported a failure together with an error message.
pub const DETECTED_ERROR: &'static str = "Detected error";

/// The device reported a failure and its error message could not be read.
pub const ERROR_MESSAGE_UNAVAILABLE: &'static str = "Failed to retrieve error message";

/// A report to send holds no byte, not even the report ID.
pub const EMPTY_REPORT: &'static str = "Data must contain at least one byte";

/// Fewer bytes of a feature report were sent than it holds.
pub const FEATURE_REPORT_INCOMPLETE: &'static str = "Failed to send feature report completely";

/// The blocking mode could not be changed.
pub const BLOCKING_MODE_FAILED: &'static str = "Failed to set blocking mode";

/// No device could be opened.
pub const OPEN_FAILED: &'static str = "Unable to open hid device";

} // verus!
