//! The data that the dispatch core works on, with a mathematical view of
//! every type that owns heap data.

use vstd::prelude::*;

verus! {

/// Longest frame, in bytes, that one transport read or write carries.
pub const MAX_FRAME_LEN: usize = 64;

/// Most bytes that a single memory write can carry inside one frame.
pub const MAX_WRITE_PAYLOAD: u8 = 55;

/// Most steps of a rumble envelope that fit into one frame.
pub const MAX_RUMBLE_STEPS: u8 = 8;

/// USB vendor id under which Joy-Cons enumerate.
pub const JC_VENDOR_ID: u16 = 1406;

/// Product id of the left Joy-Con.
pub const LEFT_JC_PROD_ID: u16 = 8198;

/// Product id of the right Joy-Con.
pub const RIGHT_JC_PROD_ID: u16 = 8199;

/// Token chosen by the caller that links an action to its later reply.
pub type CorrelationId = u8;

/// Copies a byte vector.
pub fn copy_bytes(src: &Vec<u8>) -> (out: Vec<u8>)
    ensures
        out@ == src@,
{
    let mut out: Vec<u8> = Vec::new();
    let mut i: usize = 0;
    while i < src.len()
        invariant
            i <= src@.len(),
            out@ == src@.subrange(0, i as int),
        decreases src@.len() - i,
    {
        out.push(src[i]);
        i += 1;
        assert(out@ =~= src@.subrange(0, i as int));
    }
    assert(src@.subrange(0, src@.len() as int) =~= src@);
    out
}

/// Tells whether two byte vectors hold the same bytes.
pub fn bytes_equal(a: &Vec<u8>, b: &Vec<u8>) -> (same: bool)
    ensures
        same == (a@ == b@),
{
    if a.len() != b.len() {
        return false;
    }
    let mut i: usize = 0;
    while i < a.len()
        invariant
            a@.len() == b@.len(),
            i <= a@.len(),
            a@.subrange(0, i as int) == b@.subrange(0, i as int),
        decreases a@.len() - i,
    {
        if a[i] != b[i] {
            return false;
        }
        i += 1;
        assert(a@.subrange(0, i as int) =~= a@.subrange(0, i - 1).push(a@[i - 1]));
        assert(b@.subrange(0, i as int) =~= b@.subrange(0, i - 1).push(b@[i - 1]));
    }
    assert(a@.subrange(0, a@.len() as int) =~= a@);
    assert(b@.subrange(0, b@.len() as int) =~= b@);
    true
}

/// Stable key of a physical device: fixed once the device was discovered.
#[derive(Debug, Clone, PartialEq, Eq)]
pub struct DeviceIdentity {
    pub vendor_id: u16,
    pub product_id: u16,
    pub path: Vec<u8>,
}

/// What a [`DeviceIdentity`] stands for.
pub struct DeviceIdentityView {
    pub vendor_id: u16,
    pub product_id: u16,
    pub path: Seq<u8>,
}

impl View for DeviceIdentity {
    type V = DeviceIdentityView;

    open spec fn view(&self) -> DeviceIdentityView {
        DeviceIdentityView {
            vendor_id: self.vendor_id,
            product_id: self.product_id,
            path: self.path@,
        }
    }
}

impl DeviceIdentityView {
    /// The vendor and product ids are those of a left or right Joy-Con.
    pub open spec fn is_joycon(self) -> bool {
        self.vendor_id == JC_VENDOR_ID && (self.product_id == LEFT_JC_PROD_ID || self.product_id
            == RIGHT_JC_PROD_ID)
    }
}

impl DeviceIdentity {
    pub fn new(vendor_id: u16, product_id: u16, path: Vec<u8>) -> (id: DeviceIdentity)
        ensures
            id@ == (DeviceIdentityView { vendor_id, product_id, path: path@ }),
    {
        DeviceIdentity { vendor_id, product_id, path }
    }

    /// Tells whether the device is a left or right Joy-Con.
    pub fn is_joycon(&self) -> (yes: bool)
        ensures
            yes == self@.is_joycon(),
    {
        self.vendor_id == JC_VENDOR_ID && (self.product_id == LEFT_JC_PROD_ID || self.product_id
            == RIGHT_JC_PROD_ID)
    }

    /// Tells whether both identities name the same device.
    pub fn same_device(&self, other: &DeviceIdentity) -> (same: bool)
        ensures
            same == (self@ == other@),
    {
        self.vendor_id == other.vendor_id && self.product_id == other.product_id && bytes_equal(
            &self.path,
            &other.path,
        )
    }

    /// An independent copy of the identity.
    pub fn duplicate(&self) -> (copy: DeviceIdentity)
        ensures
            copy@ == self@,
    {
        DeviceIdentity {
            vendor_id: self.vendor_id,
            product_id: self.product_id,
            path: copy_bytes(&self.path),
        }
    }
}

/// Where a device stands in its life cycle.
#[derive(Debug, Clone, Copy, PartialEq, Eq)]
pub enum DeviceState {
    Discovered,
    Connected,
    Disconnecting,
    Disconnected,
}

impl DeviceState {
    /// Position of the state in the life cycle, which only moves forward.
    pub open spec fn rank(self) -> nat {
        match self {
            DeviceState::Discovered => 0,
            DeviceState::Connected => 1,
            DeviceState::Disconnecting => 2,
            DeviceState::Disconnected => 3,
        }
    }

    pub fn is_connected(&self) -> (yes: bool)
        ensures
            yes == (*self == DeviceState::Connected),
    {
        match self {
            DeviceState::Connected => true,
            _ => false,
        }
    }

    pub fn is_disconnected(&self) -> (yes: bool)
        ensures
            yes == (*self == DeviceState::Disconnected),
    {
        match self {
            DeviceState::Disconnected => true,
            _ => false,
        }
    }
}

/// Last battery reading of a device.
#[derive(Debug, Clone, Copy, PartialEq, Eq)]
pub struct BatteryInfo {
    pub voltage_mv: u16,
    pub charging: bool,
}

} // verus!
