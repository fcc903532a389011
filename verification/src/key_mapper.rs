//! Input devices as the key mappers see them, and the search for the Rog Ally's
//! keyboard by its identifiers.
use vstd::prelude::*;

verus! {

/// An input device, as far as the key mappers read it.
pub struct InputDeviceInfo {
    /// The vendor identifier.
    pub vendor: u16,
    /// The product identifier.
    pub product: u16,
    /// The key codes the device can send, when it sends keys.
    pub supported_keys: Option<Vec<u16>>,
}

/// `device` has the vendor and product identifiers `vendor` and `product`.
pub open spec fn has_ids(device: InputDeviceInfo, vendor: u16, product: u16) -> bool {
    device.vendor == vendor && device.product == product
}

/// The first of `devices` from index `i` on with the given identifiers.
pub open spec fn first_with_ids(devices: Seq<InputDeviceInfo>, vendor: u16, product: u16, i: int) -> Option<int>
    decreases devices.len() - i,
{
    if i < 0 || i >= devices.len() {
        None
    } else if has_ids(devices[i], vendor, product) {
        Some(i)
    } else {
        first_with_ids(devices, vendor, product, i + 1)
    }
}

/// The index of the first of `devices` with the given identifiers.
pub fn find_by_ids(devices: &Vec<InputDeviceInfo>, vendor: u16, product: u16) -> (r: Option<usize>)
    ensures
        match (r, first_with_ids(devices@, vendor, product, 0)) {
            (Some(a), Some(b)) => a == b,
            (None, None) => true,
            _ => false,
        },
{
    let mut i: usize = 0;
    while i < devices.len()
        invariant
            i <= devices.len(),
            first_with_ids(devices@, vendor, product, 0) == first_with_ids(
                devices@,
                vendor,
                product,
                i as int,
            ),
        decreases devices.len() - i,
    {
        if devices[i].vendor == vendor && devices[i].product == product {
            return Some(i);
        }
        i = i + 1;
    }
    None
}

/// The index of the Rog Ally's keyboard (vendor `0x0b05`, product `0x1abe`) among
/// `devices`: the first with these identifiers.
pub fn pick_device(devices: &Vec<InputDeviceInfo>) -> (r: Option<usize>)
    ensures
        match (r, first_with_ids(devices@, 0x0b05, 0x1abe, 0)) {
            (Some(a), Some(b)) => a == b,
            (None, None) => true,
            _ => false,
        },
{
    find_by_ids(devices, 0x0b05, 0x1abe)
}

} // verus!
