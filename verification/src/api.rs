use vstd::prelude::*;

use crate::device_info::{
    all_readable, convert_all, convert_device_info, copy_device_list, device_info_vector, info_views, HidDeviceInfo,
    RawDeviceInfo,
};
use crate::error::{HidError, HidResult, ALREADY_IN_USE, INIT_FAILED};

verus! {

/// Whether a hidapi context is open in this process. The C library keeps
/// one global context, so at most one [`HidApi`] may exist at a time.
pub struct ContextLock {
    in_use: bool,
}

impl ContextLock {
    /// True while a [`HidApi`] holds the context.
    pub closed spec fn in_use(&self) -> bool {
        self.in_use
    }

    /// The state of a process that has not opened a context yet.
    pub fn new() -> (r: ContextLock)
        ensures
            !r.in_use(),
    {
        ContextLock { in_use: false }
    }

    /// Whether a context is open now.
    pub fn is_in_use(&self) -> (r: bool)
        ensures
            r == self.in_use(),
    {
        self.in_use
    }
}

/// How an attempt to create a [`HidApi`] ends.
pub enum NewOutcome {
    /// Another `HidApi` holds the context.
    InUse,
    /// `hid_init` reported failure.
    InitFailed,
    /// The context was opened.
    Opened,
}

/// The outcome of creating a [`HidApi`] when the context is or is not in
/// use and `hid_init` returned `init_status`.
pub open spec fn new_outcome(in_use: bool, init_status: i32) -> NewOutcome {
    if in_use {
        NewOutcome::InUse
    } else if init_status == -1 {
        NewOutcome::InitFailed
    } else {
        NewOutcome::Opened
    }
}

/// Whether the context is in use after that attempt.
pub open spec fn in_use_after_new(in_use: bool, init_status: i32) -> bool {
    in_use || init_status != -1
}

/// Object for handling hidapi context and implementing RAII for it.
/// Only one instance can exist at a time.
pub struct HidApi {
    devices: Vec<HidDeviceInfo>,
}

impl View for HidApi {
    type V = Seq<HidDeviceInfo>;

    closed spec fn view(&self) -> Seq<HidDeviceInfo> {
        self.devices@
    }
}

impl HidApi {
    /// Initializes the HID: refuses while another `HidApi` holds the
    /// context; otherwise takes the status that `hid_init` returned and, when
    /// it succeeded, the records that `hid_enumerate` listed.
    pub fn new(lock: &mut ContextLock, init_status: i32, raw_devices: &Vec<RawDeviceInfo>) -> (r:
        HidResult<HidApi>)
        requires
            new_outcome(old(lock).in_use(), init_status) is Opened ==> all_readable(raw_devices@),
        ensures
            final(lock).in_use() == in_use_after_new(old(lock).in_use(), init_status),
            match new_outcome(old(lock).in_use(), init_status) {
                NewOutcome::InUse => r == Err::<HidApi, HidError>(ALREADY_IN_USE),
                NewOutcome::InitFailed => r == Err::<HidApi, HidError>(INIT_FAILED),
                NewOutcome::Opened => r matches Ok(api) && info_views(api@) == convert_all(
                    raw_devices@,
                ) && api@.len() == raw_devices@.len() && forall|i: int|
                    0 <= i < raw_devices@.len() ==> (#[trigger] api@[i])@ == convert_device_info(
                        raw_devices@[i]@,
                    ),
            },
    {
        if lock.in_use {
            return Err(ALREADY_IN_USE);
        }
        if init_status == -1 {
            return Err(INIT_FAILED);
        }
        lock.in_use = true;
        Ok(HidApi { devices: device_info_vector(raw_devices) })
    }

    /// Refresh devices list and information about them (to access them use
    /// `devices()` method), from the records that `hid_enumerate` listed.
    pub fn refresh_devices(&mut self, raw_devices: &Vec<RawDeviceInfo>)
        requires
            all_readable(raw_devices@),
        ensures
            info_views(final(self)@) == convert_all(raw_devices@),
            final(self)@.len() == raw_devices@.len(),
            forall|i: int|
                0 <= i < raw_devices@.len() ==> (#[trigger] final(self)@[i])@
                    == convert_device_info(raw_devices@[i]@),
    {
        self.devices = device_info_vector(raw_devices);
    }

    /// Returns list of objects containing information about connected devices
    pub fn devices(&self) -> (r: Vec<HidDeviceInfo>)
        ensures
            r@ == self@,
    {
        copy_device_list(&self.devices)
    }

    /// Gives the context back after `hid_exit` has closed it.
    pub fn release(self, lock: &mut ContextLock)
        ensures
            !final(lock).in_use(),
    {
        lock.in_use = false;
    }
}

/// Law: only one instance can exist at a time. Once a `HidApi` has been
/// created, every further attempt is refused as long as it lives, whatever
/// `hid_init` would report; once it has been released, the next attempt
/// opens the context exactly when `hid_init` succeeds.
pub proof fn lemma_single_context(first_status: i32, later_status: i32)
    requires
        new_outcome(false, first_status) is Opened,
    ensures
        in_use_after_new(false, first_status),
        new_outcome(in_use_after_new(false, first_status), later_status) is InUse,
        in_use_after_new(in_use_after_new(false, first_status), later_status),
        (new_outcome(false, later_status) is Opened) <==> later_status != -1,
{
}

} // verus!
