//! Devices as they are stored, and their conversion from and to the model.
//!
//! Stored devices hold their hardware address and target address as strings
//! (`2E:E3:50:A3:E2:F7`, `192.168.2.3:9`); the target address is optional for
//! data written by releases that did not have it.
use vstd::prelude::*;

use crate::model::{Device, DeviceView};
use crate::net::boxed::SocketAddrV4Boxed;
use crate::net::ip::{AddrKind, AddrParseError, Ipv4Addr};
use crate::net::macaddr::{mac_display, spec_mac6_from_str, MacAddr6Boxed, MacParseError};
use crate::net::boxed::socket_v4_display;
use crate::net::parse::{lemma_parse_socket_v4_display, parse_socket_v4};
use crate::net::wol::wol_default_target_address;
use crate::text::{push_str, str_eq};

verus! {

/// A stored device.
#[derive(Clone, Debug)]
pub struct StoredDevice {
    pub label: String,
    pub mac_address: MacAddr6Boxed,
    pub host: String,
    /// The target address; absent in data of earlier releases.
    pub target_address: Option<SocketAddrV4Boxed>,
}

/// The mathematical value of a stored device.
pub struct StoredDeviceView {
    pub label: Seq<char>,
    pub mac_address: MacAddr6Boxed,
    pub host: Seq<char>,
    pub target_address: Option<SocketAddrV4Boxed>,
}

impl View for StoredDevice {
    type V = StoredDeviceView;

    open spec fn view(&self) -> StoredDeviceView {
        StoredDeviceView {
            label: self.label@,
            mac_address: self.mac_address,
            host: self.host@,
            target_address: self.target_address,
        }
    }
}

/// The default target address, the IPv4 broadcast address on port 9.
pub open spec fn default_target() -> SocketAddrV4Boxed {
    SocketAddrV4Boxed { ip: Ipv4Addr { a: 255, b: 255, c: 255, d: 255 }, port: 9 }
}

/// The device of a stored device; a missing target address becomes the default.
pub open spec fn device_of_stored(s: StoredDeviceView) -> DeviceView {
    DeviceView {
        label: s.label,
        mac_address: s.mac_address,
        host: s.host,
        target_address: match s.target_address {
            Some(t) => t,
            None => default_target(),
        },
    }
}

/// The stored form of a device.
pub open spec fn stored_of_device(d: DeviceView) -> StoredDeviceView {
    StoredDeviceView {
        label: d.label,
        mac_address: d.mac_address,
        host: d.host,
        target_address: Some(d.target_address),
    }
}

/// Why stored fields do not make a device.
#[derive(Clone, Copy, Debug, PartialEq, Eq, Structural)]
pub enum StoredDeviceError {
    InvalidMacAddress(MacParseError),
    InvalidTargetAddress(AddrParseError),
}

impl PartialEq for StoredDevice {
    fn eq(&self, other: &Self) -> (r: bool) {
        let same_target = match (self.target_address, other.target_address) {
            (None, None) => true,
            (Some(a), Some(b)) => a == b,
            _ => false,
        };
        str_eq(self.label.as_str(), other.label.as_str()) && self.mac_address == other.mac_address && str_eq(self.host.as_str(), other.host.as_str()) && same_target
    }
}

impl vstd::std_specs::cmp::PartialEqSpecImpl for StoredDevice {
    open spec fn obeys_eq_spec() -> bool {
        true
    }

    open spec fn eq_spec(&self, other: &StoredDevice) -> bool {
        self@ == other@
    }
}

fn copy_str(s: &str) -> (r: String)
    ensures
        r@ == s@,
{
    let mut r = String::new();
    push_str(&mut r, s);
    assert(r@ =~= s@);
    r
}

impl StoredDevice {
    /// The stored form of `device`.
    pub fn from_device(device: &Device) -> (r: Self)
        ensures
            r@ == stored_of_device(device@),
    {
        StoredDevice {
            label: device.label(),
            host: device.host(),
            mac_address: device.mac_address(),
            target_address: Some(device.target_address()),
        }
    }

    /// The device this stored device describes.
    pub fn to_device(&self) -> (r: Device)
        ensures
            r@ == device_of_stored(self@),
    {
        let target = match self.target_address {
            Some(t) => t,
            None => wol_default_target_address(),
        };
        Device::new(self.label.as_str(), self.mac_address, self.host.as_str(), target)
    }

    /// A stored device read from its serialized fields: the label and host as
    /// they are, the hardware address and the optional target address as strings.
    pub fn from_fields(
        label: &str,
        mac_address: &str,
        host: &str,
        target_address: Option<&str>,
    ) -> (r: Result<Self, StoredDeviceError>)
        ensures
            spec_mac6_from_str(mac_address@) matches Err(e) ==> r == Err::<Self, StoredDeviceError>(
                StoredDeviceError::InvalidMacAddress(e),
            ),
            spec_mac6_from_str(mac_address@) is Ok && target_address is Some && parse_socket_v4(
                target_address.unwrap()@,
            ) is None ==> r == Err::<Self, StoredDeviceError>(
                StoredDeviceError::InvalidTargetAddress(AddrParseError { kind: AddrKind::SocketV4 }),
            ),
            r matches Ok(d) ==> {
                &&& spec_mac6_from_str(mac_address@) == Ok::<Seq<u8>, MacParseError>(
                    d.mac_address@,
                )
                &&& d.label@ == label@
                &&& d.host@ == host@
                &&& match target_address {
                    None => d.target_address is None,
                    Some(t) => d.target_address matches Some(a) && parse_socket_v4(t@) == Some(
                        (a.ip@, a.port),
                    ),
                }
            },
            spec_mac6_from_str(mac_address@) is Ok && match target_address {
                None => true,
                Some(t) => parse_socket_v4(t@) is Some,
            } ==> r is Ok,
            forall|b: Seq<u8>|
                b.len() == 6 && mac_address@ == #[trigger] mac_display(b) ==> (r matches Ok(d)
                    ==> d.mac_address@ == b),
            forall|d: StoredDeviceView|
                #![trigger written_fields(d, label@, mac_address@, host@, target_address)]
                written_fields(d, label@, mac_address@, host@, target_address) ==> (r matches Ok(x)
                    && x@ == d),
    {
        proof {
            assert forall|d: StoredDeviceView|
                #![trigger written_fields(d, label@, mac_address@, host@, target_address)]
                written_fields(d, label@, mac_address@, host@, target_address) implies match target_address {
                    None => true,
                    Some(t) => parse_socket_v4(t@) is Some,
                } by {
                if let Some(t) = target_address {
                    let a = d.target_address.unwrap();
                    lemma_parse_socket_v4_display(a.ip@, a.port);
                }
            }
        }
        let mac = match MacAddr6Boxed::from_str(mac_address) {
            Ok(m) => m,
            Err(e) => {
                return Err(StoredDeviceError::InvalidMacAddress(e));
            },
        };
        let target = match target_address {
            None => None,
            Some(t) => match SocketAddrV4Boxed::from_str(t) {
                Ok(a) => Some(a),
                Err(e) => {
                    return Err(StoredDeviceError::InvalidTargetAddress(e));
                },
            },
        };
        let r = StoredDevice {
            label: copy_str(label),
            mac_address: mac,
            host: copy_str(host),
            target_address: target,
        };
        proof {
            assert forall|d: StoredDeviceView|
                #![trigger written_fields(d, label@, mac_address@, host@, target_address)]
                written_fields(d, label@, mac_address@, host@, target_address) implies r@ == d by {
                assert(mac_address@ == mac_display(d.mac_address@));
                assert(mac@ == d.mac_address@);
                assert(mac == d.mac_address);
                if let Some(t) = target_address {
                    let a = d.target_address.unwrap();
                    lemma_parse_socket_v4_display(a.ip@, a.port);
                    let b = target.unwrap();
                    assert(b.ip@ == a.ip@);
                    assert(b.ip == a.ip);
                }
            }
        }
        Ok(r)
    }

    /// The hardware address as it is stored.
    pub fn mac_address_string(&self) -> (r: String)
        ensures
            r@ == mac_display(self.mac_address@),
    {
        self.mac_address.to_string()
    }

    /// The target address as it is stored, if there is one.
    pub fn target_address_string(&self) -> (r: Option<String>)
        ensures
            match self.target_address {
                None => r is None,
                Some(a) => r matches Some(s) && s@ == crate::net::boxed::socket_v4_display(
                    a.ip@,
                    a.port,
                ),
            },
    {
        match self.target_address {
            None => None,
            Some(a) => Some(a.to_string()),
        }
    }
}

/// Whether `label`, `mac`, `host` and `target` are the fields written for the
/// stored device `d`.
pub open spec fn written_fields(
    d: StoredDeviceView,
    label: Seq<char>,
    mac: Seq<char>,
    host: Seq<char>,
    target: Option<&str>,
) -> bool {
    &&& label == d.label
    &&& mac == mac_display(d.mac_address@)
    &&& host == d.host
    &&& match target {
        None => d.target_address is None,
        Some(t) => d.target_address matches Some(a) && t@ == socket_v4_display(a.ip@, a.port),
    }
}

/// A device turned into its stored form and back is the same device.
pub proof fn lemma_device_store_roundtrip(d: DeviceView)
    ensures
        device_of_stored(stored_of_device(d)) == d,
{
}

/// A stored device with a target address turned into a device and back is the
/// same stored device; one without target address gets the default target.
pub proof fn lemma_stored_device_roundtrip(s: StoredDeviceView)
    ensures
        s.target_address is Some ==> stored_of_device(device_of_stored(s)) == s,
        s.target_address is None ==> stored_of_device(device_of_stored(s)) == (StoredDeviceView {
            target_address: Some(default_target()),
            ..s
        }),
{
}

/// The stored forms of `devices`, in order.
pub fn stored_devices(devices: &[Device]) -> (r: Vec<StoredDevice>)
    ensures
        r@.len() == devices@.len(),
        forall|i: int| 0 <= i < r@.len() ==> #[trigger] r@[i]@ == stored_of_device(devices@[i]@),
{
    let mut r: Vec<StoredDevice> = Vec::new();
    let mut i: usize = 0;
    while i < devices.len()
        invariant
            i <= devices@.len(),
            r@.len() == i,
            forall|k: int| 0 <= k < i ==> #[trigger] r@[k]@ == stored_of_device(devices@[k]@),
        decreases devices.len() - i,
    {
        r.push(StoredDevice::from_device(&devices[i]));
        i = i + 1;
    }
    r
}

/// The devices of `stored`, in order.
pub fn devices_from_stored(stored: &[StoredDevice]) -> (r: Vec<Device>)
    ensures
        r@.len() == stored@.len(),
        forall|i: int| 0 <= i < r@.len() ==> #[trigger] r@[i]@ == device_of_stored(stored@[i]@),
{
    let mut r: Vec<Device> = Vec::new();
    let mut i: usize = 0;
    while i < stored.len()
        invariant
            i <= stored@.len(),
            r@.len() == i,
            forall|k: int| 0 <= k < i ==> #[trigger] r@[k]@ == device_of_stored(stored@[k]@),
        decreases stored.len() - i,
    {
        r.push(stored[i].to_device());
        i = i + 1;
    }
    r
}

} // verus!
