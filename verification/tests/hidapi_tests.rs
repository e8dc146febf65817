use hidapi::{
    blocking_mode_outcome, buffer_string, check_report, check_size, conv_hid_device_info,
    copy_device_list, device_info_vector, feature_report_outcome, is_failure_status,
    nonblocking_flag, open_outcome, wchar_to_string, ContextLock, HidApi, HidDeviceInfo,
    RawDeviceInfo, ALREADY_IN_USE, BLOCKING_MODE_FAILED, DETECTED_ERROR, EMPTY_REPORT,
    ERROR_MESSAGE_UNAVAILABLE, FEATURE_REPORT_INCOMPLETE, INIT_FAILED, INVALID_CHAR,
    NULL_POINTER, OPEN_FAILED, STRING_BUF_LEN, UNDETECTED_ERROR,
};
use libc::wchar_t;

fn wide(s: &str) -> Vec<wchar_t> {
    s.chars().map(|c| c as u32 as wchar_t).collect()
}

fn wide_nul(s: &str) -> Vec<wchar_t> {
    let mut w = wide(s);
    w.push(0);
    w
}

fn raw(path: &[u8], vendor_id: u16, serial: Option<Vec<wchar_t>>) -> RawDeviceInfo {
    RawDeviceInfo {
        path: path.to_vec(),
        vendor_id,
        product_id: 0x3456,
        serial_number: serial,
        release_number: 0x0100,
        manufacturer_string: Some(wide_nul("Acme")),
        product_string: None,
        usage_page: 0xff00,
        usage: 1,
        interface_number: -1,
    }
}

#[test]
fn smoke() {
    let mut lock = ContextLock::new();
    let api = HidApi::new(&mut lock, 0, &Vec::new()).unwrap();
    // Print out information about all connected devices
    for device in &api.devices() {
        println!("{:#?}", device);
    }
}

#[test]
fn wchar_to_string_null_pointer() {
    assert_eq!(wchar_to_string(None), Err(NULL_POINTER));
}

#[test]
fn wchar_to_string_stops_at_nul() {
    let mut w = wide_nul("abc");
    w.extend(wide("xyz"));
    assert_eq!(wchar_to_string(Some(&w)), Ok("abc".to_string()));
}

#[test]
fn wchar_to_string_empty_and_unterminated() {
    assert_eq!(wchar_to_string(Some(&[0])), Ok(String::new()));
    assert_eq!(wchar_to_string(Some(&[])), Ok(String::new()));
    assert_eq!(wchar_to_string(Some(&wide("héllo €"))), Ok("héllo €".to_string()));
}

#[test]
fn wchar_to_string_rejects_surrogates_and_out_of_range() {
    let w: Vec<wchar_t> = vec![0x41, 0xD800 as wchar_t, 0];
    assert_eq!(wchar_to_string(Some(&w)), Err(INVALID_CHAR));
    let w: Vec<wchar_t> = vec![0x110000 as wchar_t, 0];
    assert_eq!(wchar_to_string(Some(&w)), Err(INVALID_CHAR));
}

#[test]
fn wchar_to_string_ignores_invalid_units_after_nul() {
    let w: Vec<wchar_t> = vec![0x48, 0x69, 0, 0xDFFF as wchar_t];
    assert_eq!(wchar_to_string(Some(&w)), Ok("Hi".to_string()));
}

#[test]
fn wide_round_trip_law() {
    for s in ["", "a", "Osspial", "ünïcödé 𝄞"] {
        assert_eq!(wchar_to_string(Some(&wide_nul(s))), Ok(s.to_string()));
    }
}

#[test]
fn conv_copies_fields_and_decodes_strings() {
    let r = raw("/dev/hidraw0".as_bytes(), 0x0123, Some(wide_nul("SN-1")));
    let info = conv_hid_device_info(&r);
    assert_eq!(info.path, "/dev/hidraw0");
    assert_eq!(info.vendor_id, 0x0123);
    assert_eq!(info.product_id, 0x3456);
    assert_eq!(info.serial_number, Some("SN-1".to_string()));
    assert_eq!(info.release_number, 0x0100);
    assert_eq!(info.manufacturer_string, Some("Acme".to_string()));
    assert_eq!(info.product_string, None);
    assert_eq!(info.usage_page, 0xff00);
    assert_eq!(info.usage, 1);
    assert_eq!(info.interface_number, -1);
}

#[test]
fn conv_drops_undecodable_strings() {
    let r = raw("p\u{e9}th".as_bytes(), 1, Some(vec![0xD801 as wchar_t, 0]));
    let info = conv_hid_device_info(&r);
    assert_eq!(info.path, "péth");
    assert_eq!(info.serial_number, None);
}

#[test]
fn device_info_vector_keeps_order() {
    let raws = vec![raw(b"a", 1, None), raw(b"b", 2, None), raw(b"c", 3, None)];
    let infos = device_info_vector(&raws);
    let paths: Vec<&str> = infos.iter().map(|d| d.path.as_str()).collect();
    assert_eq!(paths, vec!["a", "b", "c"]);
    let vids: Vec<u16> = infos.iter().map(|d| d.vendor_id).collect();
    assert_eq!(vids, vec![1, 2, 3]);
}

#[test]
fn copy_device_list_is_identical() {
    let infos = device_info_vector(&vec![raw(b"x", 7, Some(wide_nul("s")))]);
    let copy = copy_device_list(&infos);
    assert_eq!(format!("{:?}", copy), format!("{:?}", infos));
    let one: HidDeviceInfo = infos[0].duplicate();
    assert_eq!(format!("{:?}", one), format!("{:?}", infos[0]));
}

#[test]
fn new_opens_and_lists_devices() {
    let mut lock = ContextLock::new();
    assert!(!lock.is_in_use());
    let raws = vec![raw(b"/dev/hidraw1", 0x0123, None)];
    let api = HidApi::new(&mut lock, 0, &raws).unwrap();
    assert!(lock.is_in_use());
    let devices = api.devices();
    assert_eq!(devices.len(), 1);
    assert_eq!(devices[0].path, "/dev/hidraw1");
}

#[test]
fn new_reports_init_failure() {
    let mut lock = ContextLock::new();
    assert_eq!(HidApi::new(&mut lock, -1, &Vec::new()).err(), Some(INIT_FAILED));
    assert!(!lock.is_in_use());
}

#[test]
fn only_one_context_at_a_time() {
    let mut lock = ContextLock::new();
    let api = HidApi::new(&mut lock, 0, &Vec::new()).unwrap();
    assert_eq!(HidApi::new(&mut lock, 0, &Vec::new()).err(), Some(ALREADY_IN_USE));
    assert_eq!(HidApi::new(&mut lock, -1, &Vec::new()).err(), Some(ALREADY_IN_USE));
    assert!(lock.is_in_use());
    api.release(&mut lock);
    assert!(!lock.is_in_use());
    assert!(HidApi::new(&mut lock, 0, &Vec::new()).is_ok());
}

#[test]
fn refresh_devices_replaces_list() {
    let mut lock = ContextLock::new();
    let mut api = HidApi::new(&mut lock, 0, &vec![raw(b"old", 1, None)]).unwrap();
    api.refresh_devices(&vec![raw(b"new1", 2, None), raw(b"new2", 3, None)]);
    let devices = api.devices();
    assert_eq!(devices.len(), 2);
    assert_eq!(devices[0].path, "new1");
    assert_eq!(devices[1].path, "new2");
    api.refresh_devices(&Vec::new());
    assert!(api.devices().is_empty());
}

#[test]
fn check_size_passes_sizes_through() {
    assert_eq!(check_size(17, &Ok(String::new())), Ok(17));
    assert_eq!(check_size(0, &Err("ignored")), Ok(0));
    assert_eq!(check_size(-2, &Ok(String::new())), Ok(-2i32 as usize));
}

#[test]
fn check_size_reports_each_failure() {
    assert_eq!(check_size(-1, &Ok(String::new())), Err(UNDETECTED_ERROR));
    assert_eq!(check_size(-1, &Ok("timeout".to_string())), Err(DETECTED_ERROR));
    assert_eq!(check_size(-1, &Err(NULL_POINTER)), Err(ERROR_MESSAGE_UNAVAILABLE));
}

#[test]
fn failure_status_is_minus_one() {
    assert!(is_failure_status(-1));
    assert!(!is_failure_status(0));
    assert!(!is_failure_status(-2));
}

#[test]
fn reports_need_a_report_id() {
    assert_eq!(check_report(&[]), Err(EMPTY_REPORT));
    assert_eq!(check_report(&[0]), Ok(()));
    assert_eq!(check_report(&[0, 1, 2, 3, 4]), Ok(()));
}

#[test]
fn feature_report_must_be_sent_completely() {
    assert_eq!(feature_report_outcome(Ok(17), 17), Ok(()));
    assert_eq!(feature_report_outcome(Ok(16), 17), Err(FEATURE_REPORT_INCOMPLETE));
    assert_eq!(feature_report_outcome(Err(DETECTED_ERROR), 17), Err(DETECTED_ERROR));
}

#[test]
fn blocking_mode_flag_and_outcome() {
    assert_eq!(nonblocking_flag(true), 0);
    assert_eq!(nonblocking_flag(false), 1);
    assert_eq!(blocking_mode_outcome(0), Ok(()));
    assert_eq!(blocking_mode_outcome(-1), Err(BLOCKING_MODE_FAILED));
}

#[test]
fn open_outcome_checks_handle() {
    assert_eq!(open_outcome(true), Err(OPEN_FAILED));
    assert_eq!(open_outcome(false), Ok(()));
}

#[test]
fn buffer_string_reads_to_nul() {
    let mut buf: Vec<wchar_t> = vec![0; STRING_BUF_LEN];
    for (i, c) in "Manufacturer".chars().enumerate() {
        buf[i] = c as u32 as wchar_t;
    }
    assert_eq!(buffer_string(Ok(0), &buf), Ok("Manufacturer".to_string()));
    assert_eq!(buffer_string(Err(UNDETECTED_ERROR), &buf), Err(UNDETECTED_ERROR));
    buf[0] = 0xDC00 as wchar_t;
    assert_eq!(buffer_string(Ok(0), &buf), Err(INVALID_CHAR));
}
