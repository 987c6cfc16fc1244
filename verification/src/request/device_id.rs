//! The answer that assigns a device id.

use vstd::prelude::*;

verus! {

/// The device id the site assigned.
#[derive(Debug, Clone, PartialEq, Eq)]
pub struct DeviceId {
    device_id: String,
}

impl DeviceId {
    /// An answer carrying `device_id`.
    pub fn new(device_id: String) -> (r: DeviceId)
        ensures
            r.id_view() == device_id@,
    {
        DeviceId { device_id }
    }

    /// The id carried.
    pub closed spec fn id_view(&self) -> Seq<char> {
        self.device_id@
    }

    /// The id carried.
    pub fn into_device_id(self) -> (r: String)
        ensures
            r@ == self.id_view(),
    {
        self.device_id
    }
}

} // verus!
