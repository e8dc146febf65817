//! A verified core for talking to HID devices through the hidapi C library.
//!
//! The library holds what hidapi-based programs decide: how wide C strings
//! become Rust strings, how raw device records become [`HidDeviceInfo`]
//! values, how the single-context rule of [`HidApi`] is kept, and how the
//! status codes that hidapi returns become results. The calls into the C
//! library itself are made by the program around it, which hands the
//! library the plain values it read.

mod api;
mod device;
mod device_info;
mod error;
mod wide;

pub use api::{
    in_use_after_new, lemma_single_context, new_outcome, ContextLock, HidApi, NewOutcome,
};
pub use device::{
    blocking_mode_outcome, buffer_string, check_report, check_size, failure_error,
    feature_report_outcome, is_failure_status, nonblocking_flag, open_outcome, STRING_BUF_LEN,
};
pub use device_info::{
    all_readable, conv_hid_device_info, convert_all, convert_device_info, copy_device_list,
    decoded_optional, device_info_vector, info_views, lemma_convert_all_one_per_record,
    lemma_convert_device_info_fields, lemma_convert_device_info_texts, optional_chars, optional_units, raw_info_readable,
    wide_field, DeviceInfoView, HidDeviceInfo, RawDeviceInfo, RawDeviceInfoView,
};
pub use error::{
    HidError, HidResult, ALREADY_IN_USE, BLOCKING_MODE_FAILED, DETECTED_ERROR, EMPTY_REPORT,
    ERROR_MESSAGE_UNAVAILABLE, FEATURE_REPORT_INCOMPLETE, INIT_FAILED, INVALID_CHAR, NULL_POINTER,
    OPEN_FAILED, UNDETECTED_ERROR,
};
pub use wide::{
    decode_wide, encode_wide, lemma_decode_encode_wide, lemma_decode_wide_stops_at_nul, no_nul,
    wchar_to_string,
};
