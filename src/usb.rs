use vstd::prelude::*;

verus! {

/// USB vendor identifier of the mouse.
pub const VENDOR_ID: u16 = 0x258a;

/// USB product identifier of the mouse.
pub const PRODUCT_ID: u16 = 0x1007;

/// `bmRequestType` of the HID GET_REPORT class request (device to host).
pub const GET_REPORT_REQUEST_TYPE: u8 = 0xa1;

/// `bRequest` of the HID GET_REPORT class request.
pub const GET_REPORT_REQUEST: u8 = 0x01;

/// `bmRequestType` of the HID SET_REPORT class request (host to device).
pub const SET_REPORT_REQUEST_TYPE: u8 = 0x21;

/// `bRequest` of the HID SET_REPORT class request.
pub const SET_REPORT_REQUEST: u8 = 0x09;

/// `wValue` of both report requests: feature report 4.
pub const REPORT_VALUE: u16 = 0x0304;

/// `wIndex` of both report requests: the configuration interface.
pub const REPORT_INDEX: u16 = 1;

/// Timeout of one control transfer, in seconds.
pub const TRANSFER_TIMEOUT_SECS: u64 = 1;

/// Interface whose kernel driver is reattached after a transfer.
pub const KERNEL_INTERFACE: u8 = 0;

/// Whether identifiers (vendor, product) are the mouse's.
pub open spec fn spec_is_target(vendor_id: u16, product_id: u16) -> bool {
    vendor_id == VENDOR_ID && product_id == PRODUCT_ID
}

/// Whether a device entry is the mouse: its identifiers could be read and
/// they are the mouse's.
pub open spec fn spec_entry_is_target(entry: Option<(u16, u16)>) -> bool {
    entry matches Some(ids) && spec_is_target(ids.0, ids.1)
}

/// Whether a device with these identifiers is the mouse.
pub fn is_target_device(vendor_id: u16, product_id: u16) -> (r: bool)
    ensures
        r == spec_is_target(vendor_id, product_id),
{
    vendor_id == VENDOR_ID && product_id == PRODUCT_ID
}

/// Position of the first device in `devices` that is the mouse. Each entry
/// holds a device's (vendor, product) identifiers, or `None` where they could
/// not be read.
pub fn find_target_device(devices: &[Option<(u16, u16)>]) -> (r: Option<usize>)
    ensures
        r matches Some(i) ==> i < devices@.len() && spec_entry_is_target(devices@[i as int])
            && forall|j: int| 0 <= j < i ==> !spec_entry_is_target(#[trigger] devices@[j]),
        r is None ==> forall|j: int|
            0 <= j < devices@.len() ==> !spec_entry_is_target(#[trigger] devices@[j]),
{
    let mut i: usize = 0;
    while i < devices.len()
        invariant
            i <= devices@.len(),
            forall|j: int| 0 <= j < i ==> !spec_entry_is_target(#[trigger] devices@[j]),
        decreases devices@.len() - i,
    {
        if let Some(ids) = devices[i] {
            if is_target_device(ids.0, ids.1) {
                return Some(i);
            }
        }
        i = i + 1;
    }
    None
}

} // verus!
