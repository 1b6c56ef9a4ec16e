//! The device model: devices, the list of registered and discovered devices,
//! and device discovery from the ARP cache.
use vstd::prelude::*;

use crate::net::arpcache::{ArpCacheEntry, ArpCacheParseError, ArpHardwareType, ArpKnownHardwareType};
use crate::net::boxed::SocketAddrV4Boxed;
use crate::net::ip::ipv4_display;
use crate::net::macaddr::MacAddr6Boxed;
use crate::net::wol::wol_default_target_address;
use crate::text::push_str;

verus! {

/// A device to wake: a human readable label, the hardware address to wake, the
/// host (name or IP address) to check whether it is reachable, and the address
/// to send magic packets to.
#[derive(Clone, Debug)]
pub struct Device {
    pub label: String,
    pub mac_address: MacAddr6Boxed,
    pub host: String,
    pub target_address: SocketAddrV4Boxed,
}

/// The mathematical value of a device.
pub struct DeviceView {
    pub label: Seq<char>,
    pub mac_address: MacAddr6Boxed,
    pub host: Seq<char>,
    pub target_address: SocketAddrV4Boxed,
}

impl View for Device {
    type V = DeviceView;

    open spec fn view(&self) -> DeviceView {
        DeviceView {
            label: self.label@,
            mac_address: self.mac_address,
            host: self.host@,
            target_address: self.target_address,
        }
    }
}

/// A copy of `s`.
fn copy_str(s: &str) -> (r: String)
    ensures
        r@ == s@,
{
    let mut r = String::new();
    push_str(&mut r, s);
    assert(r@ =~= s@);
    r
}

impl Device {
    /// A device with the given label, hardware address, host and target address.
    pub fn new(
        label: &str,
        mac_address: MacAddr6Boxed,
        host: &str,
        target_address: SocketAddrV4Boxed,
    ) -> (r: Self)
        ensures
            r@ == (DeviceView { label: label@, mac_address, host: host@, target_address }),
    {
        Device { label: copy_str(label), mac_address, host: copy_str(host), target_address }
    }

    /// The label.
    pub fn label(&self) -> (r: String)
        ensures
            r@ == self.label@,
    {
        self.label.clone()
    }

    /// The host.
    pub fn host(&self) -> (r: String)
        ensures
            r@ == self.host@,
    {
        self.host.clone()
    }

    /// The hardware address.
    pub fn mac_address(&self) -> (r: MacAddr6Boxed)
        ensures
            r == self.mac_address,
    {
        self.mac_address
    }

    /// The address magic packets go to.
    pub fn target_address(&self) -> (r: SocketAddrV4Boxed)
        ensures
            r == self.target_address,
    {
        self.target_address
    }

    /// Change the label.
    pub fn set_label(&mut self, label: &str)
        ensures
            final(self)@ == (DeviceView { label: label@, ..old(self)@ }),
    {
        self.label = copy_str(label);
    }

    /// Change the hardware address.
    pub fn set_mac_address(&mut self, mac_address: MacAddr6Boxed)
        ensures
            final(self)@ == (DeviceView { mac_address, ..old(self)@ }),
    {
        self.mac_address = mac_address;
    }

    /// Change the host.
    pub fn set_host(&mut self, host: &str)
        ensures
            final(self)@ == (DeviceView { host: host@, ..old(self)@ }),
    {
        self.host = copy_str(host);
    }

    /// Change the target address.
    pub fn set_target_address(&mut self, target_address: SocketAddrV4Boxed)
        ensures
            final(self)@ == (DeviceView { target_address, ..old(self)@ }),
    {
        self.target_address = target_address;
    }

    /// A copy of this device.
    pub fn duplicate(&self) -> (r: Self)
        ensures
            r@ == self@,
    {
        Device {
            label: self.label.clone(),
            mac_address: self.mac_address,
            host: self.host.clone(),
            target_address: self.target_address,
        }
    }

    /// Whether this device has the same fields as `other`.
    pub fn same_as(&self, other: &Device) -> (r: bool)
        ensures
            r == (self@ == other@),
    {
        self.label == other.label && self.mac_address == other.mac_address && self.host
            == other.host && self.target_address == other.target_address
    }
}

impl Default for Device {
    /// A device with empty label and host, the nil hardware address and the
    /// unspecified target address.
    fn default() -> (r: Self)
        ensures
            r.label@.len() == 0,
            r.host@.len() == 0,
            r.mac_address@ == seq![0u8, 0u8, 0u8, 0u8, 0u8, 0u8],
            r.target_address.ip@ == seq![0u8, 0u8, 0u8, 0u8],
            r.target_address.port == 0,
    {
        Device {
            label: String::new(),
            mac_address: MacAddr6Boxed::nil(),
            host: String::new(),
            target_address: SocketAddrV4Boxed::default(),
        }
    }
}

/// The views of a sequence of devices.
pub open spec fn views(s: Seq<Device>) -> Seq<DeviceView> {
    s.map_values(|d: Device| d@)
}

/// A change of a list model: at `position`, `removed` items were replaced by
/// `added` items.
#[derive(Clone, Copy, Debug, PartialEq, Eq, Structural)]
pub struct ItemsChanged {
    pub position: u32,
    pub removed: u32,
    pub added: u32,
}

/// A direction to move a device in.
#[derive(Clone, Copy, Debug, PartialEq, Eq, Structural)]
pub enum MoveDirection {
    /// The device moves up, to a smaller index.
    Upwards,
    /// The device moves down, to a larger index.
    Downwards,
}

/// The registered devices after moving the device at `index` one step in
/// `direction`: it swaps places with its neighbour, if there is one.
pub open spec fn moved(s: Seq<Device>, index: int, direction: MoveDirection) -> Seq<Device> {
    let other = match direction {
        MoveDirection::Upwards => index - 1,
        MoveDirection::Downwards => index + 1,
    };
    if 0 <= index < s.len() && 0 <= other < s.len() {
        s.update(index, s[other]).update(other, s[index])
    } else {
        s
    }
}

/// The device discovery: when enabled, devices found in the ARP cache.
#[derive(Debug)]
pub struct DeviceDiscovery {
    pub discovery_enabled: bool,
    pub discovered_devices: Vec<Device>,
}

impl DeviceDiscovery {
    /// A disabled discovery without devices.
    pub fn new() -> (r: Self)
        ensures
            !r.discovery_enabled,
            r.discovered_devices@.len() == 0,
    {
        DeviceDiscovery { discovery_enabled: false, discovered_devices: Vec::new() }
    }

    /// Enable or disable discovery.  Disabling drops all discovered devices and
    /// reports their removal; enabling asks for a scan of the ARP cache, which
    /// the caller starts when the result is `true`.
    pub fn set_discovery_enabled(&mut self, enabled: bool) -> (r: (bool, Option<ItemsChanged>))
        requires
            old(self).discovered_devices@.len() <= u32::MAX,
        ensures
            final(self).discovery_enabled == enabled,
            r.0 == enabled,
            enabled ==> final(self).discovered_devices@ == old(self).discovered_devices@,
            enabled ==> r.1 is None,
            !enabled ==> final(self).discovered_devices@.len() == 0,
            !enabled ==> r.1 == Some(
                ItemsChanged {
                    position: 0,
                    removed: old(self).discovered_devices@.len() as u32,
                    added: 0,
                },
            ),
    {
        self.discovery_enabled = enabled;
        if enabled {
            (true, None)
        } else {
            let n = self.discovered_devices.len() as u32;
            self.discovered_devices.clear();
            (false, Some(ItemsChanged { position: 0, removed: n, added: 0 }))
        }
    }

    /// Take the devices a scan found: while discovery is still enabled they are
    /// appended, and the change is reported; otherwise they are dropped.
    pub fn scan_finished(&mut self, found: Vec<Device>) -> (r: Option<ItemsChanged>)
        requires
            old(self).discovered_devices@.len() + found@.len() <= u32::MAX,
        ensures
            final(self).discovery_enabled == old(self).discovery_enabled,
            old(self).discovery_enabled ==> final(self).discovered_devices@
                == old(self).discovered_devices@ + found@,
            old(self).discovery_enabled ==> r == Some(
                ItemsChanged {
                    position: old(self).discovered_devices@.len() as u32,
                    removed: 0,
                    added: found@.len() as u32,
                },
            ),
            !old(self).discovery_enabled ==> final(self).discovered_devices@
                == old(self).discovered_devices@,
            !old(self).discovery_enabled ==> r is None,
    {
        if self.discovery_enabled {
            let before = self.discovered_devices.len() as u32;
            let added = found.len() as u32;
            let mut found = found;
            self.discovered_devices.append(&mut found);
            Some(ItemsChanged { position: before, removed: 0, added })
        } else {
            None
        }
    }

    /// The number of discovered devices.
    pub fn n_items(&self) -> (r: usize)
        ensures
            r == self.discovered_devices@.len(),
    {
        self.discovered_devices.len()
    }

    /// The discovered device at `position`, if there is one.
    pub fn item(&self, position: usize) -> (r: Option<&Device>)
        ensures
            position < self.discovered_devices@.len() ==> r == Some(
                &self.discovered_devices@[position as int],
            ),
            position >= self.discovered_devices@.len() ==> r is None,
    {
        if position < self.discovered_devices.len() {
            Some(&self.discovered_devices[position])
        } else {
            None
        }
    }
}

/// All devices: the registered ones, followed by the discovered ones.
#[derive(Debug)]
pub struct Devices {
    pub registered_devices: Vec<Device>,
    pub discovered_devices: DeviceDiscovery,
}

/// All devices of `d` in list order.
pub open spec fn all_devices(d: &Devices) -> Seq<Device> {
    d.registered_devices@ + d.discovered_devices.discovered_devices@
}

impl Devices {
    /// No devices, with discovery disabled.
    pub fn new() -> (r: Self)
        ensures
            r.registered_devices@.len() == 0,
            r.discovered_devices.discovered_devices@.len() == 0,
            !r.discovered_devices.discovery_enabled,
    {
        Devices { registered_devices: Vec::new(), discovered_devices: DeviceDiscovery::new() }
    }

    /// The number of devices.
    pub fn n_items(&self) -> (r: usize)
        requires
            self.registered_devices@.len() + self.discovered_devices.discovered_devices@.len()
                <= usize::MAX,
        ensures
            r == all_devices(self).len(),
    {
        self.registered_devices.len() + self.discovered_devices.discovered_devices.len()
    }

    /// The device at `position`: a registered device, or after all registered
    /// devices, a discovered one.
    pub fn item(&self, position: usize) -> (r: Option<&Device>)
        ensures
            position < all_devices(self).len() ==> r == Some(&all_devices(self)[position as int]),
            position >= all_devices(self).len() ==> r is None,
    {
        let n = self.registered_devices.len();
        if position < n {
            Some(&self.registered_devices[position])
        } else if position - n < self.discovered_devices.discovered_devices.len() {
            Some(&self.discovered_devices.discovered_devices[position - n])
        } else {
            None
        }
    }

    /// Whether `position` holds a registered device.
    pub fn is_registered(&self, position: usize) -> (r: bool)
        ensures
            r == (position < self.registered_devices@.len()),
    {
        position < self.registered_devices.len()
    }

    /// The change of the whole list for a change of the discovered devices:
    /// discovered devices come after all registered devices.
    pub fn discovered_change(&self, change: ItemsChanged) -> (r: ItemsChanged)
        requires
            change.position + self.registered_devices@.len() <= u32::MAX,
        ensures
            r == (ItemsChanged {
                position: (change.position + self.registered_devices@.len()) as u32,
                ..change
            }),
    {
        ItemsChanged {
            position: change.position + self.registered_devices.len() as u32,
            removed: change.removed,
            added: change.added,
        }
    }

    /// Register a new device at the end of the registered devices.
    pub fn add_device(&mut self, device: Device) -> (r: ItemsChanged)
        requires
            old(self).registered_devices@.len() < u32::MAX,
        ensures
            final(self).registered_devices@ == old(self).registered_devices@.push(device),
            final(self).discovered_devices.discovered_devices@
                == old(self).discovered_devices.discovered_devices@,
            final(self).discovered_devices.discovery_enabled
                == old(self).discovered_devices.discovery_enabled,
            r == (ItemsChanged {
                position: old(self).registered_devices@.len() as u32,
                removed: 0,
                added: 1,
            }),
    {
        let position = self.registered_devices.len() as u32;
        self.registered_devices.push(device);
        ItemsChanged { position, removed: 0, added: 1 }
    }

    /// The index of the first registered device with the same fields as
    /// `device`.  Devices with equal fields are not told apart here; a row
    /// refers to its device by its position instead (`apply_row_effect`).
    pub fn find_registered(&self, device: &Device) -> (r: Option<usize>)
        ensures
            r matches Some(i) ==> i < self.registered_devices@.len()
                && self.registered_devices@[i as int]@ == device@ && forall|j: int|
                0 <= j < i ==> self.registered_devices@[j]@ != device@,
            r is None ==> forall|j: int|
                0 <= j < self.registered_devices@.len() ==> self.registered_devices@[j]@
                    != device@,
    {
        let mut i: usize = 0;
        while i < self.registered_devices.len()
            invariant
                i <= self.registered_devices@.len(),
                forall|j: int| 0 <= j < i ==> self.registered_devices@[j]@ != device@,
            decreases self.registered_devices.len() - i,
        {
            if self.registered_devices[i].same_as(device) {
                return Some(i);
            }
            i = i + 1;
        }
        None
    }

    /// Remove the registered device at `index`.
    pub fn delete_device(&mut self, index: usize) -> (r: Option<ItemsChanged>)
        requires
            index <= u32::MAX,
        ensures
            index < old(self).registered_devices@.len() ==> final(self).registered_devices@
                == old(self).registered_devices@.remove(index as int) && r == Some(
                ItemsChanged { position: index as u32, removed: 1, added: 0 },
            ),
            index >= old(self).registered_devices@.len() ==> final(self).registered_devices@
                == old(self).registered_devices@ && r is None,
            final(self).discovered_devices.discovered_devices@
                == old(self).discovered_devices.discovered_devices@,
            final(self).discovered_devices.discovery_enabled
                == old(self).discovered_devices.discovery_enabled,
    {
        if index < self.registered_devices.len() {
            self.registered_devices.remove(index);
            Some(ItemsChanged { position: index as u32, removed: 1, added: 0 })
        } else {
            None
        }
    }

    /// Replace the registered device at `index` by `device`, as saving the
    /// dialog that edits it does; returns whether there was such a device.
    pub fn replace_device(&mut self, index: usize, device: Device) -> (r: bool)
        ensures
            r == (index < old(self).registered_devices@.len()),
            r ==> final(self).registered_devices@ == old(self).registered_devices@.update(
                index as int,
                device,
            ),
            !r ==> final(self).registered_devices@ == old(self).registered_devices@,
            final(self).discovered_devices.discovered_devices@
                == old(self).discovered_devices.discovered_devices@,
            final(self).discovered_devices.discovery_enabled
                == old(self).discovered_devices.discovery_enabled,
    {
        if index < self.registered_devices.len() {
            self.registered_devices.set(index, device);
            true
        } else {
            false
        }
    }

    /// Move the registered device at `index` one step in `direction`, swapping
    /// it with its neighbour; nothing happens at either end of the list.
    pub fn move_device(&mut self, index: usize, direction: MoveDirection)
        ensures
            final(self).registered_devices@ == moved(
                old(self).registered_devices@,
                index as int,
                direction,
            ),
            final(self).registered_devices@.len() == old(self).registered_devices@.len(),
            ({
                let s = old(self).registered_devices@;
                let t = final(self).registered_devices@;
                let other = match direction {
                    MoveDirection::Upwards => index - 1,
                    MoveDirection::Downwards => index + 1,
                };
                &&& (index < s.len() && 0 <= other < s.len()) ==> {
                    &&& t[index as int] == s[other]
                    &&& t[other] == s[index as int]
                    &&& forall|j: int| 0 <= j < s.len() && j != index && j != other ==> t[j] == s[j]
                }
                &&& !(index < s.len() && 0 <= other < s.len()) ==> t == s
            }),
            final(self).discovered_devices.discovered_devices@
                == old(self).discovered_devices.discovered_devices@,
            final(self).discovered_devices.discovery_enabled
                == old(self).discovered_devices.discovery_enabled,
    {
        let n = self.registered_devices.len();
        if index >= n {
            return;
        }
        let other: usize = match direction {
            MoveDirection::Upwards => {
                if index == 0 {
                    return;
                }
                index - 1
            },
            MoveDirection::Downwards => {
                if index + 1 >= n {
                    return;
                }
                index + 1
            },
        };
        let ghost before = self.registered_devices@;
        // Remove the neighbour and put it back in the place of the moved device,
        // which keeps the moved device itself in the list all the time.
        let neighbour = self.registered_devices.remove(other);
        self.registered_devices.insert(index, neighbour);
        assert(self.registered_devices@ =~= before.update(index as int, before[other as int]).update(
            other as int,
            before[index as int],
        ));
    }

    /// Replace all registered devices by `devices`; reports the removal of the
    /// old devices and the insertion of the new ones.
    pub fn reset_devices(&mut self, devices: Vec<Device>) -> (r: (ItemsChanged, ItemsChanged))
        requires
            old(self).registered_devices@.len() <= u32::MAX,
            devices@.len() <= u32::MAX,
        ensures
            final(self).registered_devices@ == devices@,
            r.0 == (ItemsChanged {
                position: 0,
                removed: old(self).registered_devices@.len() as u32,
                added: 0,
            }),
            r.1 == (ItemsChanged { position: 0, removed: 0, added: devices@.len() as u32 }),
            final(self).discovered_devices.discovered_devices@
                == old(self).discovered_devices.discovered_devices@,
            final(self).discovered_devices.discovery_enabled
                == old(self).discovered_devices.discovery_enabled,
    {
        let removed = self.registered_devices.len() as u32;
        let added = devices.len() as u32;
        self.registered_devices = devices;
        (
            ItemsChanged { position: 0, removed, added: 0 },
            ItemsChanged { position: 0, removed: 0, added },
        )
    }
}

/// Moving a device whose neighbour in `direction` exists swaps the two and
/// leaves every other device in place; without such a neighbour nothing moves.
pub proof fn lemma_move_swaps_neighbours(s: Seq<Device>, index: int, direction: MoveDirection)
    ensures
        ({
            let other = match direction {
                MoveDirection::Upwards => index - 1,
                MoveDirection::Downwards => index + 1,
            };
            let m = moved(s, index, direction);
            &&& m.len() == s.len()
            &&& (0 <= index < s.len() && 0 <= other < s.len()) ==> {
                &&& m[index] == s[other]
                &&& m[other] == s[index]
                &&& forall|j: int| 0 <= j < s.len() && j != index && j != other ==> m[j] == s[j]
            }
            &&& !(0 <= index < s.len() && 0 <= other < s.len()) ==> m == s
        }),
{
}

/// Moving a device up and then moving it down again, from its new place,
/// restores the list.
pub proof fn lemma_move_up_then_down(s: Seq<Device>, index: int)
    requires
        0 < index < s.len(),
    ensures
        moved(moved(s, index, MoveDirection::Upwards), index - 1, MoveDirection::Downwards) == s,
{
    assert(moved(moved(s, index, MoveDirection::Upwards), index - 1, MoveDirection::Downwards)
        =~= s);
}

/// Moving a device keeps the number of devices, and every device stays in the
/// list.
pub proof fn lemma_move_keeps_devices(s: Seq<Device>, index: int, direction: MoveDirection)
    ensures
        moved(s, index, direction).len() == s.len(),
        moved(s, index, direction).to_multiset() == s.to_multiset(),
{
    let other = match direction {
        MoveDirection::Upwards => index - 1,
        MoveDirection::Downwards => index + 1,
    };
    if 0 <= index < s.len() && 0 <= other < s.len() {
        let t = s.update(index, s[other]);
        let ms = s.to_multiset();
        vstd::seq_lib::to_multiset_update(s, index, s[other]);
        vstd::seq_lib::to_multiset_update(t, other, s[index]);
        broadcast use vstd::seq_lib::group_to_multiset_ensures;
        assert(s.contains(s[index]));
        assert(ms.count(s[index]) > 0);
        assert(t[other] == s[other]);
        assert(ms.insert(s[other]).remove(s[index]).insert(s[index]).remove(s[other]) =~= ms);
    }
}

/// Whether `entry` parsed and is a complete Ethernet entry.
pub open spec fn is_discoverable(entry: Result<ArpCacheEntry, ArpCacheParseError>) -> bool {
    entry matches Ok(e) && e.hardware_type == ArpHardwareType::Known(ArpKnownHardwareType::Ether)
        && e.flags.bits & 2u8 == 2u8
}

/// The devices discovered from ARP cache `entries`: every entry that parsed and
/// is a complete Ethernet entry, in order, becomes a device with the given
/// `label`, the entry's hardware address, its IP address as host, and the
/// default target address.
pub open spec fn discovered_devices(
    entries: Seq<Result<ArpCacheEntry, ArpCacheParseError>>,
    label: Seq<char>,
) -> Seq<DeviceView>
    decreases entries.len(),
{
    if entries.len() == 0 {
        seq![]
    } else {
        let rest = discovered_devices(entries.drop_last(), label);
        match entries.last() {
            Ok(e) => if is_discoverable(entries.last()) {
                rest.push(
                    DeviceView {
                        label,
                        mac_address: e.hardware_address,
                        host: ipv4_display(e.ip_address@),
                        target_address: SocketAddrV4Boxed {
                            ip: crate::net::ip::Ipv4Addr { a: 255, b: 255, c: 255, d: 255 },
                            port: 9,
                        },
                    },
                )
            } else {
                rest
            },
            Err(_) => rest,
        }
    }
}

/// The device a single ARP cache entry yields when discovered with `label`:
/// an entry that parsed and is a complete Ethernet entry becomes a device
/// with the entry's hardware address, its IP address as host and the
/// default target address; any other entry yields none.
pub open spec fn entry_device(
    entry: Result<ArpCacheEntry, ArpCacheParseError>,
    label: Seq<char>,
) -> Option<DeviceView> {
    match entry {
        Ok(e) => if e.hardware_type == ArpHardwareType::Known(ArpKnownHardwareType::Ether)
            && e.flags.bits & 2u8 == 2u8 {
            Some(
                DeviceView {
                    label,
                    mac_address: e.hardware_address,
                    host: ipv4_display(e.ip_address@),
                    target_address: SocketAddrV4Boxed {
                        ip: crate::net::ip::Ipv4Addr { a: 255, b: 255, c: 255, d: 255 },
                        port: 9,
                    },
                },
            )
        } else {
            None
        },
        Err(_) => None,
    }
}

/// Discovery keeps every entry: each entry of the ARP cache yields its
/// device, in the order of the entries, and no other device is discovered.
pub proof fn lemma_discovery_keeps_every_entry(
    entries: Seq<Result<ArpCacheEntry, ArpCacheParseError>>,
    label: Seq<char>,
)
    ensures
        discovered_devices(entries, label) == entries.filter_map(
            |e: Result<ArpCacheEntry, ArpCacheParseError>| entry_device(e, label),
        ),
    decreases entries.len(),
{
    if entries.len() > 0 {
        lemma_discovery_keeps_every_entry(entries.drop_last(), label);
        let f = |e: Result<ArpCacheEntry, ArpCacheParseError>| entry_device(e, label);
        assert(entries.filter_map(f) == match f(entries.last()) {
            Some(d) => entries.drop_last().filter_map(f) + seq![d],
            None => entries.drop_last().filter_map(f),
        });
        match f(entries.last()) {
            Some(d) => {
                assert(discovered_devices(entries, label) =~= entries.drop_last().filter_map(f)
                    + seq![d]);
            },
            None => {},
        }
    } else {
        assert(entries.filter_map(
            |e: Result<ArpCacheEntry, ArpCacheParseError>| entry_device(e, label),
        ) =~= Seq::<DeviceView>::empty());
    }
}

/// Discovery yields one device per discoverable entry: as many devices as
/// there are entries that parsed and are complete Ethernet entries, and for
/// each such entry a device labelled `label` with the entry's hardware
/// address and its IP address as host.
pub proof fn lemma_discovery_counts_entries(
    entries: Seq<Result<ArpCacheEntry, ArpCacheParseError>>,
    label: Seq<char>,
)
    ensures
        discovered_devices(entries, label).len() == entries.filter(
            |e: Result<ArpCacheEntry, ArpCacheParseError>| is_discoverable(e),
        ).len(),
        forall|k: int|
            0 <= k < entries.len() && #[trigger] is_discoverable(entries[k]) ==> exists|j: int|
                0 <= j < discovered_devices(entries, label).len()
                    && #[trigger] discovered_devices(entries, label)[j].label == label
                    && discovered_devices(entries, label)[j].mac_address
                    == entries[k]->Ok_0.hardware_address && discovered_devices(entries, label)[j].host
                    == ipv4_display(entries[k]->Ok_0.ip_address@),
    decreases entries.len(),
{
    reveal_with_fuel(Seq::filter, 1);
    if entries.len() > 0 {
        let init = entries.drop_last();
        lemma_discovery_counts_entries(init, label);
        let d = discovered_devices(entries, label);
        let di = discovered_devices(init, label);
        assert(forall|j: int| 0 <= j < di.len() ==> d[j] == di[j]);
        assert forall|k: int|
            0 <= k < entries.len() && #[trigger] is_discoverable(entries[k]) implies exists|j: int|
                0 <= j < d.len() && #[trigger] d[j].label == label && d[j].mac_address
                    == entries[k]->Ok_0.hardware_address && d[j].host == ipv4_display(
                    entries[k]->Ok_0.ip_address@,
                ) by {
            if k < entries.len() - 1 {
                assert(entries[k] == init[k]);
                assert(is_discoverable(init[k]));
                let j = choose|j: int|
                    0 <= j < di.len() && #[trigger] di[j].label == label && di[j].mac_address
                        == init[k]->Ok_0.hardware_address && di[j].host == ipv4_display(
                        init[k]->Ok_0.ip_address@,
                    );
                assert(d[j] == di[j]);
            } else {
                let j = d.len() - 1;
                assert(d[j].label == label);
            }
        }
    }
}

/// Turn the parsed ARP cache `entries` into discovered devices labelled `label`,
/// skipping malformed and incomplete or non-Ethernet entries.
pub fn devices_from_arp_cache(
    entries: &[Result<ArpCacheEntry, ArpCacheParseError>],
    label: &str,
) -> (r: Vec<Device>)
    ensures
        views(r@) == discovered_devices(entries@, label@),
        views(r@) == entries@.filter_map(
            |e: Result<ArpCacheEntry, ArpCacheParseError>| entry_device(e, label@),
        ),
        r@.len() == entries@.filter(
            |e: Result<ArpCacheEntry, ArpCacheParseError>| is_discoverable(e),
        ).len(),
        forall|k: int|
            0 <= k < entries@.len() && #[trigger] is_discoverable(entries@[k]) ==> exists|j: int|
                0 <= j < r@.len() && #[trigger] r@[j]@.label == label@ && r@[j]@.mac_address
                    == entries@[k]->Ok_0.hardware_address && r@[j]@.host == ipv4_display(
                    entries@[k]->Ok_0.ip_address@,
                ),
{
    proof {
        lemma_discovery_keeps_every_entry(entries@, label@);
        lemma_discovery_counts_entries(entries@, label@);
    }
    let mut r: Vec<Device> = Vec::new();
    let mut i: usize = 0;
    while i < entries.len()
        invariant
            i <= entries@.len(),
            views(r@) == discovered_devices(entries@.subrange(0, i as int), label@),
        decreases entries.len() - i,
    {
        proof {
            assert(entries@.subrange(0, i + 1).drop_last() =~= entries@.subrange(0, i as int));
            assert(entries@.subrange(0, i + 1).last() == entries@[i as int]);
        }
        match &entries[i] {
            Ok(entry) => {
                if entry.is_complete_ethernet_entry() {
                    let host = entry.ip_address.to_string();
                    let device = Device::new(
                        label,
                        entry.hardware_address,
                        host.as_str(),
                        wol_default_target_address(),
                    );
                    let ghost before = r@;
                    r.push(device);
                    proof {
                        assert(views(r@) =~= views(before).push(device@));
                    }
                } else {
                    proof {
                        assert(!is_discoverable(entries@[i as int]));
                    }
                }
            },
            Err(_) => {},
        }
        i = i + 1;
    }
    assert(entries@.subrange(0, entries@.len() as int) =~= entries@);
    r
}

} // verus!
