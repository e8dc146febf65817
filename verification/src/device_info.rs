use libc::wchar_t;
use vstd::prelude::*;
use vstd::utf8::{decode_utf8, encode_utf8, valid_utf8};

use crate::wide::{decode_wide, encode_wide, lemma_decode_encode_wide, no_nul, wchar_to_string};

verus! {

/// Declares `core::str::Utf8Error`, the error of `core::str::from_utf8`.
#[verifier::external_type_specification]
#[verifier::external_body]
pub struct ExUtf8Error(core::str::Utf8Error);

/// `core::str::from_utf8` accepts exactly the byte sequences that are valid
/// UTF-8, and the string it returns holds the characters they encode.
pub assume_specification[ core::str::from_utf8 ](v: &[u8]) -> (res: Result<&str, core::str::Utf8Error>)
    ensures
        res is Ok <==> valid_utf8(v@),
        res matches Ok(s) ==> s@ == decode_utf8(v@),
;

/// Storage for device related information
#[derive(Debug, Clone)]
pub struct HidDeviceInfo {
    pub path: String,
    pub vendor_id: u16,
    pub product_id: u16,
    pub serial_number: Option<String>,
    pub release_number: u16,
    pub manufacturer_string: Option<String>,
    pub product_string: Option<String>,
    pub usage_page: u16,
    pub usage: u16,
    pub interface_number: i32,
}

/// The mathematical content of a [`HidDeviceInfo`].
pub struct DeviceInfoView {
    pub path: Seq<char>,
    pub vendor_id: u16,
    pub product_id: u16,
    pub serial_number: Option<Seq<char>>,
    pub release_number: u16,
    pub manufacturer_string: Option<Seq<char>>,
    pub product_string: Option<Seq<char>>,
    pub usage_page: u16,
    pub usage: u16,
    pub interface_number: i32,
}

/// The characters of an optional string.
pub open spec fn optional_chars(s: Option<String>) -> Option<Seq<char>> {
    match s {
        Some(s) => Some(s@),
        None => None,
    }
}

impl View for HidDeviceInfo {
    type V = DeviceInfoView;

    open spec fn view(&self) -> DeviceInfoView {
        DeviceInfoView {
            path: self.path@,
            vendor_id: self.vendor_id,
            product_id: self.product_id,
            serial_number: optional_chars(self.serial_number),
            release_number: self.release_number,
            manufacturer_string: optional_chars(self.manufacturer_string),
            product_string: optional_chars(self.product_string),
            usage_page: self.usage_page,
            usage: self.usage,
            interface_number: self.interface_number,
        }
    }
}

/// A device record as the C library hands it over: the path as the bytes
/// of its C string, and each wide string as its code units (`None` for a
/// null pointer).
pub struct RawDeviceInfo {
    pub path: Vec<u8>,
    pub vendor_id: u16,
    pub product_id: u16,
    pub serial_number: Option<Vec<wchar_t>>,
    pub release_number: u16,
    pub manufacturer_string: Option<Vec<wchar_t>>,
    pub product_string: Option<Vec<wchar_t>>,
    pub usage_page: u16,
    pub usage: u16,
    pub interface_number: i32,
}

/// The mathematical content of a [`RawDeviceInfo`].
pub struct RawDeviceInfoView {
    pub path: Seq<u8>,
    pub vendor_id: u16,
    pub product_id: u16,
    pub serial_number: Option<Seq<wchar_t>>,
    pub release_number: u16,
    pub manufacturer_string: Option<Seq<wchar_t>>,
    pub product_string: Option<Seq<wchar_t>>,
    pub usage_page: u16,
    pub usage: u16,
    pub interface_number: i32,
}

/// The code units of an optional wide string.
pub open spec fn optional_units(w: Option<Vec<wchar_t>>) -> Option<Seq<wchar_t>> {
    match w {
        Some(w) => Some(w@),
        None => None,
    }
}

impl View for RawDeviceInfo {
    type V = RawDeviceInfoView;

    open spec fn view(&self) -> RawDeviceInfoView {
        RawDeviceInfoView {
            path: self.path@,
            vendor_id: self.vendor_id,
            product_id: self.product_id,
            serial_number: optional_units(self.serial_number),
            release_number: self.release_number,
            manufacturer_string: optional_units(self.manufacturer_string),
            product_string: optional_units(self.product_string),
            usage_page: self.usage_page,
            usage: self.usage,
            interface_number: self.interface_number,
        }
    }
}

/// An optional wide string read as text: absent when the pointer was null
/// or the string does not decode.
pub open spec fn wide_field(w: Option<Seq<wchar_t>>) -> Option<Seq<char>> {
    match w {
        Some(units) => decode_wide(units),
        None => None,
    }
}

/// An optional wide string read as text, written out case by case: a
/// null pointer reads as nothing, otherwise the string is decoded.
pub open spec fn decoded_optional(w: Option<Seq<wchar_t>>) -> Option<Seq<char>> {
    if w is Some {
        decode_wide(w->0)
    } else {
        None
    }
}

/// A raw record whose path can be read as text.
pub open spec fn raw_info_readable(r: RawDeviceInfoView) -> bool {
    valid_utf8(r.path)
}

/// The device information that a raw record stands for.
pub open spec fn convert_device_info(r: RawDeviceInfoView) -> DeviceInfoView {
    DeviceInfoView {
        path: decode_utf8(r.path),
        vendor_id: r.vendor_id,
        product_id: r.product_id,
        serial_number: wide_field(r.serial_number),
        release_number: r.release_number,
        manufacturer_string: wide_field(r.manufacturer_string),
        product_string: wide_field(r.product_string),
        usage_page: r.usage_page,
        usage: r.usage,
        interface_number: r.interface_number,
    }
}

/// Reads an optional wide string as text, dropping it when it is absent or
/// does not decode.
fn wide_field_string(w: &Option<Vec<wchar_t>>) -> (r: Option<String>)
    ensures
        optional_chars(r) == wide_field(optional_units(*w)),
        optional_chars(r) == decoded_optional(optional_units(*w)),
{
    let read = match w {
        Some(units) => wchar_to_string(Some(units.as_slice())),
        None => wchar_to_string(None),
    };
    match read {
        Ok(s) => Some(s),
        Err(_) => None,
    }
}

/// Convert the C library's device record to a native `HidDeviceInfo`.
pub fn conv_hid_device_info(src: &RawDeviceInfo) -> (r: HidDeviceInfo)
    requires
        raw_info_readable(src@),
    ensures
        r@ == convert_device_info(src@),
        r.path@ == decode_utf8(src.path@),
        r.vendor_id == src.vendor_id,
        r.product_id == src.product_id,
        optional_chars(r.serial_number) == decoded_optional(optional_units(src.serial_number)),
        r.release_number == src.release_number,
        optional_chars(r.manufacturer_string) == decoded_optional(
            optional_units(src.manufacturer_string),
        ),
        optional_chars(r.product_string) == decoded_optional(optional_units(src.product_string)),
        r.usage_page == src.usage_page,
        r.usage == src.usage,
        r.interface_number == src.interface_number,
{
    let path = match core::str::from_utf8(src.path.as_slice()) {
        Ok(p) => p.to_owned(),
        Err(_) => {
            proof {
                assert(false);
            }
            String::new()
        },
    };
    HidDeviceInfo {
        path,
        vendor_id: src.vendor_id,
        product_id: src.product_id,
        serial_number: wide_field_string(&src.serial_number),
        release_number: src.release_number,
        manufacturer_string: wide_field_string(&src.manufacturer_string),
        product_string: wide_field_string(&src.product_string),
        usage_page: src.usage_page,
        usage: src.usage,
        interface_number: src.interface_number,
    }
}

} // verus!

verus! {

impl HidDeviceInfo {
    /// A field-by-field copy of this record.
    pub fn duplicate(&self) -> (r: HidDeviceInfo)
        ensures
            r == *self,
    {
        HidDeviceInfo {
            path: self.path.clone(),
            vendor_id: self.vendor_id,
            product_id: self.product_id,
            serial_number: copy_optional(&self.serial_number),
            release_number: self.release_number,
            manufacturer_string: copy_optional(&self.manufacturer_string),
            product_string: copy_optional(&self.product_string),
            usage_page: self.usage_page,
            usage: self.usage,
            interface_number: self.interface_number,
        }
    }
}

fn copy_optional(s: &Option<String>) -> (r: Option<String>)
    ensures
        r == *s,
{
    match s {
        Some(s) => Some(s.clone()),
        None => None,
    }
}

/// Every record of the sequence has a path that reads as text.
pub open spec fn all_readable(raws: Seq<RawDeviceInfo>) -> bool {
    forall|i: int| 0 <= i < raws.len() ==> raw_info_readable(#[trigger] raws[i]@)
}

/// The device information that a sequence of raw records stands for, in
/// the same order.
pub open spec fn convert_all(raws: Seq<RawDeviceInfo>) -> Seq<DeviceInfoView> {
    raws.map_values(|r: RawDeviceInfo| convert_device_info(r@))
}

/// The views of a sequence of device records.
pub open spec fn info_views(infos: Seq<HidDeviceInfo>) -> Seq<DeviceInfoView> {
    infos.map_values(|d: HidDeviceInfo| d@)
}

/// Converts the records of an enumeration, in the order the C library
/// listed them.
pub fn device_info_vector(raws: &Vec<RawDeviceInfo>) -> (r: Vec<HidDeviceInfo>)
    requires
        all_readable(raws@),
    ensures
        info_views(r@) == convert_all(raws@),
        r@.len() == raws@.len(),
        forall|i: int| 0 <= i < raws@.len() ==> (#[trigger] r@[i])@ == convert_device_info(raws@[i]@),
        forall|i: int|
            0 <= i < raws@.len() ==> (#[trigger] r@[i]).path@ == decode_utf8(raws@[i].path@)
                && r@[i].vendor_id == raws@[i].vendor_id && r@[i].product_id == raws@[i].product_id
                && r@[i].interface_number == raws@[i].interface_number,
{
    let mut device_vector: Vec<HidDeviceInfo> = Vec::new();
    let mut i: usize = 0;
    while i < raws.len()
        invariant
            i <= raws@.len(),
            all_readable(raws@),
            info_views(device_vector@) == convert_all(raws@.take(i as int)),
        decreases raws@.len() - i,
    {
        assert(raw_info_readable(raws@[i as int]@));
        let info = conv_hid_device_info(&raws[i]);
        proof {
            assert(raws@.take(i + 1) =~= raws@.take(i as int).push(raws@[i as int]));
            assert(info_views(device_vector@.push(info)) =~= info_views(device_vector@).push(info@));
            assert(convert_all(raws@.take(i + 1)) =~= convert_all(raws@.take(i as int)).push(
                convert_device_info(raws@[i as int]@),
            ));
        }
        device_vector.push(info);
        i = i + 1;
    }
    proof {
        assert(raws@.take(i as int) =~= raws@);
        lemma_convert_all_one_per_record(raws@);
        assert forall|k: int| 0 <= k < raws@.len() implies (#[trigger] device_vector@[k])@
            == convert_device_info(raws@[k]@) by {
            assert(info_views(device_vector@)[k] == device_vector@[k]@);
        }
        assert forall|k: int| 0 <= k < raws@.len() implies (#[trigger] device_vector@[k]).path@
            == decode_utf8(raws@[k].path@) && device_vector@[k].vendor_id == raws@[k].vendor_id
            && device_vector@[k].product_id == raws@[k].product_id
            && device_vector@[k].interface_number == raws@[k].interface_number by {
            assert(info_views(device_vector@)[k] == device_vector@[k]@);
            lemma_convert_device_info_fields(raws@[k]@);
        }
    }
    device_vector
}

/// A copy of a list of device records.
pub fn copy_device_list(infos: &Vec<HidDeviceInfo>) -> (r: Vec<HidDeviceInfo>)
    ensures
        r@ == infos@,
{
    let mut out: Vec<HidDeviceInfo> = Vec::new();
    let mut i: usize = 0;
    while i < infos.len()
        invariant
            i <= infos@.len(),
            out@ == infos@.take(i as int),
        decreases infos@.len() - i,
    {
        let d = infos[i].duplicate();
        proof {
            assert(infos@.take(i + 1) =~= infos@.take(i as int).push(infos@[i as int]));
        }
        out.push(d);
        i = i + 1;
    }
    proof {
        assert(infos@.take(i as int) =~= infos@);
    }
    out
}

} // verus!

verus! {

/// Law: converting an enumeration gives exactly one entry per raw record,
/// in the order of the records, each the conversion of its own record.
pub proof fn lemma_convert_all_one_per_record(raws: Seq<RawDeviceInfo>)
    ensures
        convert_all(raws).len() == raws.len(),
        forall|i: int|
            0 <= i < raws.len() ==> #[trigger] convert_all(raws)[i] == convert_device_info(
                raws[i]@,
            ),
{
}

/// Law: converting a record keeps every number it holds, reads the path
/// as UTF-8, and reads each wide string that is present (dropping it only
/// when its pointer was null or it does not decode).
pub proof fn lemma_convert_device_info_fields(r: RawDeviceInfoView)
    ensures
        convert_device_info(r).path == decode_utf8(r.path),
        convert_device_info(r).vendor_id == r.vendor_id,
        convert_device_info(r).product_id == r.product_id,
        convert_device_info(r).release_number == r.release_number,
        convert_device_info(r).usage_page == r.usage_page,
        convert_device_info(r).usage == r.usage,
        convert_device_info(r).interface_number == r.interface_number,
        r.serial_number is None ==> convert_device_info(r).serial_number is None,
        r.manufacturer_string is None ==> convert_device_info(r).manufacturer_string is None,
        r.product_string is None ==> convert_device_info(r).product_string is None,
        r.serial_number matches Some(u) ==> convert_device_info(r).serial_number == decode_wide(u),
        r.manufacturer_string matches Some(u) ==> convert_device_info(r).manufacturer_string
            == decode_wide(u),
        r.product_string matches Some(u) ==> convert_device_info(r).product_string == decode_wide(
            u,
        ),
{
}

/// Law: a record whose path is the UTF-8 encoding of some text, and whose
/// wide strings are NUL-terminated encodings of NUL-free texts, converts to
/// exactly those texts.
pub proof fn lemma_convert_device_info_texts(
    r: RawDeviceInfoView,
    path: Seq<char>,
    serial: Seq<char>,
    manufacturer: Seq<char>,
    product: Seq<char>,
)
    requires
        r.path == encode_utf8(path),
        no_nul(serial),
        no_nul(manufacturer),
        no_nul(product),
        r.serial_number is Some ==> r.serial_number == Some(encode_wide(serial).push(0)),
        r.manufacturer_string is Some ==> r.manufacturer_string == Some(
            encode_wide(manufacturer).push(0),
        ),
        r.product_string is Some ==> r.product_string == Some(encode_wide(product).push(0)),
    ensures
        raw_info_readable(r),
        convert_device_info(r).path == path,
        r.serial_number is Some ==> convert_device_info(r).serial_number == Some(serial),
        r.manufacturer_string is Some ==> convert_device_info(r).manufacturer_string == Some(
            manufacturer,
        ),
        r.product_string is Some ==> convert_device_info(r).product_string == Some(product),
{
    vstd::utf8::encode_utf8_valid_utf8(path);
    vstd::utf8::encode_utf8_decode_utf8(path);
    lemma_decode_encode_wide(serial);
    lemma_decode_encode_wide(manufacturer);
    lemma_decode_encode_wide(product);
}

} // verus!
