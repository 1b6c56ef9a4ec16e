use turnon::model::{devices_from_arp_cache, Device, DeviceDiscovery, Devices, ItemsChanged, MoveDirection};
use turnon::net::arpcache::read_arp_cache;
use turnon::net::boxed::SocketAddrV4Boxed;
use turnon::net::ip::Ipv4Addr;
use turnon::net::macaddr::MacAddr6Boxed;
use turnon::net::wol::wol_default_target_address;

fn device(label: &str) -> Device {
    Device::new(label, MacAddr6Boxed::nil(), "host", wol_default_target_address())
}

fn labels(devices: &Devices) -> Vec<String> {
    devices.registered_devices.iter().map(|d| d.label()).collect()
}

#[test]
fn device_fields() {
    let mut d = device("NAS");
    assert_eq!(d.label(), "NAS");
    assert_eq!(d.host(), "host");
    assert_eq!(d.mac_address(), MacAddr6Boxed::nil());
    assert_eq!(d.target_address(), wol_default_target_address());
    d.set_label("Desktop");
    d.set_host("pc.local");
    d.set_mac_address(MacAddr6Boxed::new(1, 2, 3, 4, 5, 6));
    let target = SocketAddrV4Boxed::new(Ipv4Addr::new(10, 0, 0, 255), 7);
    d.set_target_address(target);
    assert_eq!(d.label(), "Desktop");
    assert_eq!(d.host(), "pc.local");
    assert_eq!(d.mac_address().to_string(), "01:02:03:04:05:06");
    assert_eq!(d.target_address(), target);
    assert!(d.same_as(&d.duplicate()));
    assert!(!d.same_as(&device("Desktop")));
}

#[test]
fn devices_add_delete_and_move() {
    let mut devices = Devices::new();
    assert_eq!(devices.n_items(), 0);
    assert_eq!(
        devices.add_device(device("a")),
        ItemsChanged {
            position: 0,
            removed: 0,
            added: 1
        }
    );
    devices.add_device(device("b"));
    devices.add_device(device("c"));
    assert_eq!(labels(&devices), ["a", "b", "c"]);
    devices.move_device(2, MoveDirection::Upwards);
    assert_eq!(labels(&devices), ["a", "c", "b"]);
    devices.move_device(0, MoveDirection::Upwards);
    assert_eq!(labels(&devices), ["a", "c", "b"]);
    devices.move_device(2, MoveDirection::Downwards);
    assert_eq!(labels(&devices), ["a", "c", "b"]);
    devices.move_device(0, MoveDirection::Downwards);
    assert_eq!(labels(&devices), ["c", "a", "b"]);
    assert_eq!(devices.find_registered(&device("a")), Some(1));
    assert_eq!(devices.find_registered(&device("x")), None);
    assert_eq!(
        devices.delete_device(1),
        Some(ItemsChanged {
            position: 1,
            removed: 1,
            added: 0
        })
    );
    assert_eq!(labels(&devices), ["c", "b"]);
    assert_eq!(devices.delete_device(5), None);
    let (removed, added) = devices.reset_devices(vec![device("x")]);
    assert_eq!(removed.removed, 2);
    assert_eq!(added.added, 1);
    assert_eq!(labels(&devices), ["x"]);
}

#[test]
fn discovered_devices_come_after_registered_ones() {
    let mut devices = Devices::new();
    devices.add_device(device("a"));
    let (scan, change) = devices.discovered_devices.set_discovery_enabled(true);
    assert!(scan);
    assert_eq!(change, None);
    let change = devices
        .discovered_devices
        .scan_finished(vec![device("d1"), device("d2")])
        .unwrap();
    assert_eq!(
        devices.discovered_change(change),
        ItemsChanged {
            position: 1,
            removed: 0,
            added: 2
        }
    );
    assert_eq!(devices.n_items(), 3);
    assert_eq!(devices.item(2).unwrap().label(), "d2");
    assert!(devices.item(3).is_none());
    assert!(devices.is_registered(0));
    assert!(!devices.is_registered(1));
    let (scan, change) = devices.discovered_devices.set_discovery_enabled(false);
    assert!(!scan);
    assert_eq!(
        change,
        Some(ItemsChanged {
            position: 0,
            removed: 2,
            added: 0
        })
    );
    assert_eq!(devices.discovered_devices.scan_finished(vec![device("late")]), None);
    assert_eq!(devices.n_items(), 1);
}

#[test]
fn discovery_keeps_complete_ethernet_entries() {
    let contents = "IP address       HW type     Flags       HW address            Mask     Device
192.168.178.130  0x1         0x2         b6:a3:b0:48:80:f1     *        wlp4s0
192.168.178.131  0x1         0x0         b6:a3:b0:48:80:f2     *        wlp4s0
192.168.178.132  0x20        0x2         b6:a3:b0:48:80:f3     *        wlp4s0
garbage
";
    let entries = read_arp_cache(contents);
    let found = devices_from_arp_cache(&entries, "Discovered device");
    assert_eq!(found.len(), 1);
    assert_eq!(found[0].label(), "Discovered device");
    assert_eq!(found[0].host(), "192.168.178.130");
    assert_eq!(found[0].mac_address().to_string(), "B6:A3:B0:48:80:F1");
    assert_eq!(found[0].target_address(), wol_default_target_address());
    let mut discovery = DeviceDiscovery::new();
    assert_eq!(discovery.n_items(), 0);
    assert!(discovery.item(0).is_none());
    discovery.set_discovery_enabled(true);
    assert!(discovery.scan_finished(found).is_some());
    assert_eq!(discovery.item(0).unwrap().host(), "192.168.178.130");
    assert!(discovery.item(1).is_none());
}
