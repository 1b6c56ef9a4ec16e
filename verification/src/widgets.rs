//! What the widgets decide: validation of the fields of the device dialogs,
//! the state and actions of device rows, and the feedback after sending a
//! magic packet.
use vstd::prelude::*;

use crate::model::{moved, Device, DeviceView, Devices, MoveDirection};
use crate::net::boxed::{socket_v4_display, SocketAddrV4Boxed};
use crate::net::ip::IpAddr;
use crate::net::macaddr::{
    mac_any_accepts, mac_display, spec_mac6_from_str, spec_mac_any_accepts, MacAddr6Boxed,
    MacParseError,
};
use crate::net::parse::{lemma_parse_socket_v4_display, parse_socket_v4};
use crate::net::wol::wol_default_target_address;
use crate::i18n::gettext;
use crate::text::{markup_escape, markup_escaped, chars_of, fill_one, is_dec_digit, push_str, replace_all};

verus! {

/// Whether `s` looks like a host and a port, e.g. `localhost:1245`: the text
/// after its last `:` consists of ASCII digits only (and may be empty).
pub open spec fn is_host_and_port_spec(s: Seq<char>) -> bool {
    exists|i: int|
        0 <= i < s.len() && #[trigger] s[i] == ':' && forall|j: int|
            i < j < s.len() ==> is_dec_digit(s[j])
}

/// Whether `s` looks like a host and a port.
pub fn is_host_and_port(s: &str) -> (r: bool)
    ensures
        r == is_host_and_port_spec(s@),
{
    let cs = chars_of(s);
    let mut i: usize = cs.len();
    while i > 0
        invariant
            i <= cs@.len(),
            cs@ == s@,
            forall|j: int| i <= j < cs@.len() ==> is_dec_digit(cs@[j]),
        decreases i,
    {
        let c = cs[i - 1];
        if c == ':' {
            return true;
        }
        if !('0' <= c && c <= '9') {
            proof {
                assert forall|k: int|
                    0 <= k < s@.len() && #[trigger] s@[k] == ':' implies !(forall|j: int|
                    k < j < s@.len() ==> is_dec_digit(s@[j])) by {
                    if k < i - 1 {
                        assert(!is_dec_digit(s@[i - 1]));
                    } else {
                        assert(k >= i);
                        assert(is_dec_digit(s@[k]));
                    }
                }
            }
            return false;
        }
        i = i - 1;
    }
    proof {
        assert forall|k: int| 0 <= k < s@.len() implies #[trigger] s@[k] != ':' by {
            assert(is_dec_digit(s@[k]));
        }
    }
    false
}

/// What the host field of the device dialog holds.
#[derive(Clone, Copy, Debug, PartialEq, Eq, Structural)]
pub enum HostIndicator {
    Ipv4,
    Ipv6,
    /// Nothing; invalid.
    InvalidEmpty,
    /// A host with a port; invalid.
    InvalidSocketAddress,
    /// A host name.
    Host,
}

/// What the host field holds: an IP address where `parsed`, the host parsed
/// as IP address, is one, else nothing, a host with a port, or a host name.
pub open spec fn host_indicator_spec(host: Seq<char>, parsed: Option<IpAddr>) -> HostIndicator {
    match parsed {
        Some(IpAddr::V4(_)) => HostIndicator::Ipv4,
        Some(IpAddr::V6(_)) => HostIndicator::Ipv6,
        None => if host.len() == 0 {
            HostIndicator::InvalidEmpty
        } else if is_host_and_port_spec(host) {
            HostIndicator::InvalidSocketAddress
        } else {
            HostIndicator::Host
        },
    }
}

/// The name of an indicator, which names the page the field shows.
pub open spec fn host_indicator_name(i: HostIndicator) -> Seq<char> {
    match i {
        HostIndicator::Ipv4 => "ipv4"@,
        HostIndicator::Ipv6 => "ipv6"@,
        HostIndicator::InvalidEmpty => "invalid-empty"@,
        HostIndicator::InvalidSocketAddress => "invalid-socket-address"@,
        HostIndicator::Host => "host"@,
    }
}

impl HostIndicator {
    /// Classify `host`, given `parsed`, the host parsed as IP address.
    pub fn of_host(host: &str, parsed: Option<IpAddr>) -> (r: Self)
        ensures
            r == host_indicator_spec(host@, parsed),
    {
        match parsed {
            Some(IpAddr::V4(_)) => HostIndicator::Ipv4,
            Some(IpAddr::V6(_)) => HostIndicator::Ipv6,
            None => {
                if chars_of(host).len() == 0 {
                    HostIndicator::InvalidEmpty
                } else if is_host_and_port(host) {
                    HostIndicator::InvalidSocketAddress
                } else {
                    HostIndicator::Host
                }
            },
        }
    }

    /// The name of the indicator.
    pub fn name(&self) -> (r: &'static str)
        ensures
            r@ == host_indicator_name(*self),
    {
        match self {
            HostIndicator::Ipv4 => "ipv4",
            HostIndicator::Ipv6 => "ipv6",
            HostIndicator::InvalidEmpty => "invalid-empty",
            HostIndicator::InvalidSocketAddress => "invalid-socket-address",
            HostIndicator::Host => "host",
        }
    }

    /// Whether the host is valid: its indicator does not start with `invalid-`.
    pub fn is_valid(&self) -> (r: bool)
        ensures
            r == !(*self is InvalidEmpty || *self is InvalidSocketAddress),
    {
        match self {
            HostIndicator::InvalidEmpty => false,
            HostIndicator::InvalidSocketAddress => false,
            _ => true,
        }
    }
}

/// Whether a label is valid: it is not empty.
pub fn is_label_valid(label: &str) -> (r: bool)
    ensures
        r == (label@.len() > 0),
{
    chars_of(label).len() > 0
}

/// Whether a hardware address is valid: not empty, and an EUI-48 or EUI-64
/// address to `macaddr`.
pub fn is_mac_address_valid(text: &str) -> (r: bool)
    ensures
        r == (text@.len() > 0 && spec_mac_any_accepts(text@)),
{
    chars_of(text).len() > 0 && mac_any_accepts(text)
}

/// Whether a target address is valid: not empty, and an IPv4 socket address.
pub fn is_target_address_valid(text: &str) -> (r: bool)
    ensures
        r == (text@.len() > 0 && parse_socket_v4(text@) is Some),
{
    chars_of(text).len() > 0 && SocketAddrV4Boxed::from_str(text).is_ok()
}

/// The device dialog: the text of each field, whether it is valid, and the
/// device it edits, if any.
#[derive(Debug)]
pub struct EditDeviceDialog {
    /// The device being edited; none when the dialog creates a device.
    pub device: Option<Device>,
    pub label: String,
    pub label_valid: bool,
    pub mac_address: String,
    pub mac_address_valid: bool,
    pub target_address: String,
    pub target_address_valid: bool,
    pub host: String,
    pub host_indicator: HostIndicator,
}

/// Whether the validity flags of the label, hardware address and target
/// address of `d` agree with their texts.
pub open spec fn fields_validated(d: EditDeviceDialog) -> bool {
    &&& d.label_valid == (d.label@.len() > 0)
    &&& d.mac_address_valid == (d.mac_address@.len() > 0 && spec_mac_any_accepts(d.mac_address@))
    &&& d.target_address_valid == (d.target_address@.len() > 0 && parse_socket_v4(
        d.target_address@,
    ) is Some)
}

/// Whether the dialog may save: label, hardware address, target address and
/// host are all valid.
pub open spec fn dialog_valid(d: EditDeviceDialog) -> bool {
    d.label_valid && d.mac_address_valid && d.target_address_valid && !(d.host_indicator is InvalidEmpty
        || d.host_indicator is InvalidSocketAddress)
}

/// A copy of `s`.
fn copy_of(s: &str) -> (r: String)
    ensures
        r@ == s@,
{
    let mut r = String::new();
    push_str(&mut r, s);
    assert(r@ =~= s@);
    r
}

impl EditDeviceDialog {
    /// A dialog to create a new device: all fields empty but the target
    /// address, which holds the default target address.
    pub fn new() -> (r: Self)
        ensures
            r.device is None,
            r.label@.len() == 0,
            r.mac_address@.len() == 0,
            r.host@.len() == 0,
            r.target_address@ == socket_v4_display(seq![255u8, 255u8, 255u8, 255u8], 9),
            fields_validated(r),
            r.target_address_valid,
            r.host_indicator == HostIndicator::InvalidEmpty,
    {
        let target = wol_default_target_address();
        let target_text = target.to_string();
        proof {
            lemma_parse_socket_v4_display(target.ip@, target.port);
        }
        let mut r = EditDeviceDialog {
            device: None,
            label: String::new(),
            label_valid: false,
            mac_address: String::new(),
            mac_address_valid: false,
            target_address: target_text,
            target_address_valid: false,
            host: String::new(),
            host_indicator: HostIndicator::InvalidEmpty,
        };
        r.validate_all(None);
        r
    }

    /// A dialog to edit `device`, its fields filled from the device;
    /// `parsed_host` is the host of the device parsed as IP address.
    pub fn edit(device: Device, parsed_host: Option<IpAddr>) -> (r: Self)
        ensures
            r.device == Some(device),
            r.label@ == device.label@,
            r.mac_address@ == mac_display(device.mac_address@),
            r.host@ == device.host@,
            r.target_address@ == socket_v4_display(
                device.target_address.ip@,
                device.target_address.port,
            ),
            fields_validated(r),
            r.target_address_valid,
            r.host_indicator == host_indicator_spec(device.host@, parsed_host),
            spec_mac6_from_str(r.mac_address@) == Ok::<Seq<u8>, MacParseError>(
                device.mac_address@,
            ),
            parse_socket_v4(r.target_address@) == Some(
                (device.target_address.ip@, device.target_address.port),
            ),
    {
        let label = copy_of(device.label.as_str());
        let mac_address = device.mac_address.to_string();
        // Parsing the text back shows that it reads as the same address.
        let _reparsed = MacAddr6Boxed::from_str(mac_address.as_str());
        let host = copy_of(device.host.as_str());
        let target_address = device.target_address.to_string();
        proof {
            lemma_parse_socket_v4_display(device.target_address.ip@, device.target_address.port);
        }
        let mut r = EditDeviceDialog {
            device: Some(device),
            label,
            label_valid: false,
            mac_address,
            mac_address_valid: false,
            target_address,
            target_address_valid: false,
            host,
            host_indicator: HostIndicator::InvalidEmpty,
        };
        r.validate_all(parsed_host);
        r
    }

    /// Validate all fields; `parsed_host` is the host parsed as IP address.
    pub fn validate_all(&mut self, parsed_host: Option<IpAddr>)
        ensures
            fields_validated(*final(self)),
            final(self).host_indicator == host_indicator_spec(old(self).host@, parsed_host),
            final(self).device == old(self).device,
            final(self).label == old(self).label,
            final(self).mac_address == old(self).mac_address,
            final(self).target_address == old(self).target_address,
            final(self).host == old(self).host,
    {
        self.label_valid = is_label_valid(self.label.as_str());
        self.mac_address_valid = is_mac_address_valid(self.mac_address.as_str());
        self.target_address_valid = is_target_address_valid(self.target_address.as_str());
        self.host_indicator = HostIndicator::of_host(self.host.as_str(), parsed_host);
    }

    /// Change the label, and validate it.
    pub fn set_label(&mut self, label: &str)
        ensures
            *final(self) == (EditDeviceDialog {
                label: final(self).label,
                label_valid: label@.len() > 0,
                ..*old(self)
            }),
            final(self).label@ == label@,
            fields_validated(*old(self)) ==> fields_validated(*final(self)),
    {
        self.label = copy_of(label);
        self.label_valid = is_label_valid(label);
    }

    /// Change the hardware address, and validate it.
    pub fn set_mac_address(&mut self, mac_address: &str)
        ensures
            *final(self) == (EditDeviceDialog {
                mac_address: final(self).mac_address,
                mac_address_valid: mac_address@.len() > 0 && spec_mac_any_accepts(mac_address@),
                ..*old(self)
            }),
            final(self).mac_address@ == mac_address@,
            fields_validated(*old(self)) ==> fields_validated(*final(self)),
    {
        self.mac_address = copy_of(mac_address);
        self.mac_address_valid = is_mac_address_valid(mac_address);
    }

    /// Change the target address, and validate it.
    pub fn set_target_address(&mut self, target_address: &str)
        ensures
            *final(self) == (EditDeviceDialog {
                target_address: final(self).target_address,
                target_address_valid: target_address@.len() > 0 && parse_socket_v4(
                    target_address@,
                ) is Some,
                ..*old(self)
            }),
            final(self).target_address@ == target_address@,
            fields_validated(*old(self)) ==> fields_validated(*final(self)),
    {
        self.target_address = copy_of(target_address);
        self.target_address_valid = is_target_address_valid(target_address);
    }

    /// Change the host, and classify it; `parsed` is the host parsed as IP
    /// address.
    pub fn set_host(&mut self, host: &str, parsed: Option<IpAddr>)
        ensures
            *final(self) == (EditDeviceDialog {
                host: final(self).host,
                host_indicator: host_indicator_spec(host@, parsed),
                ..*old(self)
            }),
            final(self).host@ == host@,
            fields_validated(*old(self)) ==> fields_validated(*final(self)),
    {
        self.host = copy_of(host);
        self.host_indicator = HostIndicator::of_host(host, parsed);
    }

    /// Whether the dialog may save: the label, the hardware address, the
    /// target address and the host are valid.
    pub fn is_valid(&self) -> (r: bool)
        ensures
            r == dialog_valid(*self),
    {
        self.label_valid && self.mac_address_valid && self.target_address_valid
            && self.host_indicator.is_valid()
    }

    /// The device the dialog saves: the device it edits with its fields
    /// replaced, or a new device, from the label, the hardware address, the
    /// host and the target address of the dialog, which must parse.
    pub fn save(&self) -> (r: Device)
        requires
            spec_mac6_from_str(self.mac_address@) is Ok,
            parse_socket_v4(self.target_address@) is Some,
        ensures
            r.label@ == self.label@,
            r.host@ == self.host@,
            spec_mac6_from_str(self.mac_address@) == Ok::<Seq<u8>, MacParseError>(r.mac_address@),
            parse_socket_v4(self.target_address@) == Some(
                (r.target_address.ip@, r.target_address.port),
            ),
    {
        let mac = match MacAddr6Boxed::from_str(self.mac_address.as_str()) {
            Ok(m) => m,
            Err(_) => MacAddr6Boxed::nil(),
        };
        let target = match SocketAddrV4Boxed::from_str(self.target_address.as_str()) {
            Ok(t) => t,
            Err(_) => wol_default_target_address(),
        };
        Device::new(self.label.as_str(), mac, self.host.as_str(), target)
    }

    /// Save, if the dialog is valid and its hardware and target addresses
    /// parse; `None` else.
    pub fn save_if_valid(&self) -> (r: Option<Device>)
        ensures
            r is Some <==> dialog_valid(*self) && spec_mac6_from_str(self.mac_address@) is Ok
                && parse_socket_v4(self.target_address@) is Some,
            r matches Some(d) ==> {
                &&& d.label@ == self.label@
                &&& d.host@ == self.host@
                &&& spec_mac6_from_str(self.mac_address@) == Ok::<Seq<u8>, MacParseError>(
                    d.mac_address@,
                )
                &&& parse_socket_v4(self.target_address@) == Some(
                    (d.target_address.ip@, d.target_address.port),
                )
            },
    {
        if !self.is_valid() {
            return None;
        }
        let mac_ok = MacAddr6Boxed::from_str(self.mac_address.as_str()).is_ok();
        let target_ok = SocketAddrV4Boxed::from_str(self.target_address.as_str()).is_ok();
        if mac_ok && target_ok {
            Some(self.save())
        } else {
            None
        }
    }
}

/// Opening the dialog on a device and saving it unchanged gives back the
/// same device.
pub proof fn lemma_edit_then_save_keeps_device(device: DeviceView, dialog: EditDeviceDialog, saved: DeviceView)
    requires
        dialog.label@ == device.label,
        dialog.host@ == device.host,
        spec_mac6_from_str(dialog.mac_address@) == Ok::<Seq<u8>, MacParseError>(
            device.mac_address@,
        ),
        parse_socket_v4(dialog.target_address@) == Some(
            (device.target_address.ip@, device.target_address.port),
        ),
        saved.label == dialog.label@,
        saved.host == dialog.host@,
        spec_mac6_from_str(dialog.mac_address@) == Ok::<Seq<u8>, MacParseError>(
            saved.mac_address@,
        ),
        parse_socket_v4(dialog.target_address@) == Some(
            (saved.target_address.ip@, saved.target_address.port),
        ),
    ensures
        saved == device,
{
    assert(saved.mac_address@ =~= device.mac_address@);
    assert(saved.target_address.ip@ =~= device.target_address.ip@);
    assert(saved.mac_address == device.mac_address);
    assert(saved.target_address.ip == device.target_address.ip);
}

/// What a device row shows after its buttons: the buttons, or the
/// confirmation of a deletion.
#[derive(Clone, Copy, Debug, PartialEq, Eq, Structural)]
pub enum SuffixMode {
    Buttons,
    ConfirmDelete,
}

impl SuffixMode {
    /// The name of the mode, which names the page the row shows.
    pub fn name(&self) -> (r: &'static str)
        ensures
            *self is Buttons ==> r@ == "buttons"@,
            *self is ConfirmDelete ==> r@ == "confirm-delete"@,
    {
        match self {
            SuffixMode::Buttons => "buttons",
            SuffixMode::ConfirmDelete => "confirm-delete",
        }
    }
}

/// The actions of a device row.
#[derive(Clone, Copy, Debug, PartialEq, Eq, Structural)]
pub enum RowAction {
    MoveUp,
    MoveDown,
    AskDelete,
    CancelDelete,
    Delete,
    Edit,
    Add,
}

/// What activating an action of a device row asks of the window.
#[derive(Debug)]
pub enum RowEffect {
    /// Nothing beyond the row itself.
    Nothing,
    /// Move the device of the row, which stands at `position` of the list.
    Moved { position: usize, direction: MoveDirection },
    /// Delete the device of the row, which stands at `position` of the list.
    Deleted { position: usize },
    /// Edit the device of the row, which stands at `position` of the list, in
    /// a dialog; the saved device replaces it there (`Devices::replace_device`).
    Edit { position: usize, dialog: EditDeviceDialog },
    /// Edit a new device, filled from the device of the row, in a dialog, and
    /// add it when saved.
    Add(EditDeviceDialog),
}

/// A row of the device list.
#[derive(Debug)]
pub struct DeviceRow {
    pub device: Device,
    pub is_device_online: bool,
    /// The URL of the web interface of the device, if it has one.
    pub device_url: Option<String>,
    pub suffix_mode: SuffixMode,
}

impl DeviceRow {
    /// The row of `device`, which is not known to be online yet.
    pub fn new(device: Device) -> (r: Self)
        ensures
            r.device == device,
            !r.is_device_online,
            r.device_url is None,
            r.suffix_mode == SuffixMode::Buttons,
    {
        DeviceRow { device, is_device_online: false, device_url: None, suffix_mode: SuffixMode::Buttons }
    }

    /// Show the buttons or the confirmation of a deletion.
    pub fn set_suffix_mode(&mut self, mode: SuffixMode)
        ensures
            *final(self) == (DeviceRow { suffix_mode: mode, ..*old(self) }),
    {
        self.suffix_mode = mode;
    }

    /// The hardware address of `device` as the row shows it.
    pub fn device_mac_address(device: &Device) -> (r: String)
        ensures
            r@ == mac_display(device.mac_address@),
    {
        device.mac_address.to_string()
    }

    /// The name of the state of a device.
    pub fn device_state_name(is_device_online: bool) -> (r: &'static str)
        ensures
            is_device_online ==> r@ == "online"@,
            !is_device_online ==> r@ == "offline"@,
    {
        if is_device_online {
            "online"
        } else {
            "offline"
        }
    }

    /// The markup of the host of a device: a link to `url` where the device
    /// serves a web interface, else the host alone; host and URL are escaped
    /// for markup.
    pub fn device_host(host: &str, url: Option<&str>) -> (r: String)
        ensures
            r@ == match url {
                Some(u) => "<a href=\""@ + markup_escaped(u@) + "\">"@ + markup_escaped(host@)
                    + "</a>"@,
                None => markup_escaped(host@),
            },
    {
        let escaped_host = markup_escape(host);
        match url {
            Some(u) => {
                let escaped_url = markup_escape(u);
                let mut r = String::new();
                push_str(&mut r, "<a href=\"");
                push_str(&mut r, escaped_url.as_str());
                push_str(&mut r, "\">");
                push_str(&mut r, escaped_host.as_str());
                push_str(&mut r, "</a>");
                r
            },
            None => escaped_host,
        }
    }

    /// Activate `action` on the row: moving and deleting ask the window to
    /// change the list, asking for or cancelling a deletion switches the
    /// suffix, editing opens the dialog on the device, and adding opens the
    /// dialog on a new device with the label, hardware address and host of
    /// this one and the default target address.  `position` is where the row
    /// currently stands in the list, which tells its device from an equal one
    /// elsewhere; `parsed_host` is the host of the device parsed as IP address.
    pub fn activate(&mut self, action: RowAction, position: usize, parsed_host: Option<IpAddr>) -> (r: RowEffect)
        ensures
            final(self).device == old(self).device,
            final(self).is_device_online == old(self).is_device_online,
            final(self).device_url == old(self).device_url,
            action is AskDelete ==> final(self).suffix_mode == SuffixMode::ConfirmDelete,
            action is CancelDelete ==> final(self).suffix_mode == SuffixMode::Buttons,
            !(action is AskDelete || action is CancelDelete) ==> final(self).suffix_mode
                == old(self).suffix_mode,
            action is MoveUp ==> r == (RowEffect::Moved { position, direction: MoveDirection::Upwards }),
            action is MoveDown ==> r == (RowEffect::Moved {
                position,
                direction: MoveDirection::Downwards,
            }),
            action is AskDelete || action is CancelDelete ==> r is Nothing,
            action is Delete ==> r == (RowEffect::Deleted { position }),
            action is Edit ==> (r matches RowEffect::Edit { position: p, dialog: d } && (d.device matches Some(e) && e@ == old(self).device@ && p == position
                && d.label@ == old(self).device.label@ && d.host@ == old(self).device.host@
                && d.mac_address@ == mac_display(old(self).device.mac_address@)
                && d.target_address@ == socket_v4_display(
                old(self).device.target_address.ip@,
                old(self).device.target_address.port,
            ) && fields_validated(d) && d.host_indicator == host_indicator_spec(
                old(self).device.host@,
                parsed_host,
            ))),
            action is Add ==> (r matches RowEffect::Add(d) && d.device matches Some(n)
                && n.label@ == old(self).device.label@ && n.host@ == old(self).device.host@
                && n.mac_address == old(self).device.mac_address && n.target_address.ip@ == seq![
                255u8,
                255u8,
                255u8,
                255u8,
            ] && n.target_address.port == 9 && fields_validated(d) && d.host_indicator
                == host_indicator_spec(old(self).device.host@, parsed_host)
                && d.label@ == old(self).device.label@ && d.host@ == old(self).device.host@
                && d.mac_address@ == mac_display(old(self).device.mac_address@)
                && d.target_address@ == socket_v4_display(seq![255u8, 255u8, 255u8, 255u8], 9)),
    {
        match action {
            RowAction::MoveUp => RowEffect::Moved { position, direction: MoveDirection::Upwards },
            RowAction::MoveDown => RowEffect::Moved { position, direction: MoveDirection::Downwards },
            RowAction::AskDelete => {
                self.suffix_mode = SuffixMode::ConfirmDelete;
                RowEffect::Nothing
            },
            RowAction::CancelDelete => {
                self.suffix_mode = SuffixMode::Buttons;
                RowEffect::Nothing
            },
            RowAction::Delete => RowEffect::Deleted { position },
            RowAction::Edit => RowEffect::Edit {
                position,
                dialog: EditDeviceDialog::edit(self.device.duplicate(), parsed_host),
            },
            RowAction::Add => {
                let fresh = Device::new(
                    self.device.label.as_str(),
                    self.device.mac_address,
                    self.device.host.as_str(),
                    wol_default_target_address(),
                );
                RowEffect::Add(EditDeviceDialog::edit(fresh, parsed_host))
            },
        }
    }
}

/// Carry out what a row asked of the list: move or delete the registered
/// device at the row's position; other effects leave the list alone (adding
/// waits for the dialog to save).
pub fn apply_row_effect(devices: &mut Devices, effect: &RowEffect)
    requires
        effect matches RowEffect::Deleted { position } ==> position <= u32::MAX,
    ensures
        match *effect {
            RowEffect::Moved { position, direction } => final(devices).registered_devices@
                == moved(old(devices).registered_devices@, position as int, direction),
            RowEffect::Deleted { position } => if position < old(
                devices,
            ).registered_devices@.len() {
                final(devices).registered_devices@ == old(devices).registered_devices@.remove(
                    position as int,
                )
            } else {
                final(devices).registered_devices@ == old(devices).registered_devices@
            },
            _ => final(devices).registered_devices@ == old(devices).registered_devices@,
        },
        final(devices).discovered_devices.discovered_devices@
            == old(devices).discovered_devices.discovered_devices@,
        final(devices).discovered_devices.discovery_enabled
            == old(devices).discovered_devices.discovery_enabled,
{
    match effect {
        RowEffect::Moved { position, direction } => {
            devices.move_device(*position, *direction);
        },
        RowEffect::Deleted { position } => {
            let _ = devices.delete_device(*position);
        },
        _ => {},
    }
}

/// The host indicator of the add-device dialog: `ipv4`, `ipv6`, `empty` or
/// `host`; `parsed` is the host parsed as IP address.
pub fn add_dialog_host_indicator(host: &str, parsed: Option<IpAddr>) -> (r: &'static str)
    ensures
        r@ == match parsed {
            Some(IpAddr::V4(_)) => "ipv4"@,
            Some(IpAddr::V6(_)) => "ipv6"@,
            None => if host@.len() == 0 {
                "empty"@
            } else {
                "host"@
            },
        },
{
    match parsed {
        Some(IpAddr::V4(_)) => "ipv4",
        Some(IpAddr::V6(_)) => "ipv6",
        None => if chars_of(host).len() == 0 {
            "empty"
        } else {
            "host"
        },
    }
}

/// The label indicator of the add-device dialog, `valid` for a label that is
/// not empty, `invalid` else; the dialog may save exactly when it is `valid`.
pub fn add_dialog_label_indicator(label: &str) -> (r: &'static str)
    ensures
        label@.len() > 0 ==> r@ == "valid"@,
        label@.len() == 0 ==> r@ == "invalid"@,
{
    if is_label_valid(label) {
        "valid"
    } else {
        "invalid"
    }
}

/// Which actions of a device row are enabled, and whether it is styled as
/// discovered.
#[derive(Clone, Copy, Debug, PartialEq, Eq, Structural)]
pub struct RowActions {
    pub ask_delete: bool,
    pub delete: bool,
    pub edit: bool,
    pub add: bool,
    pub move_up: bool,
    pub move_down: bool,
    pub discovered: bool,
}

/// The actions of the row of a registered device (deleting, editing, moving)
/// or of a discovered one (adding it).
pub fn row_actions(is_registered: bool) -> (r: RowActions)
    ensures
        r.ask_delete == is_registered,
        r.delete == is_registered,
        r.edit == is_registered,
        r.add == !is_registered,
        r.move_up == is_registered,
        r.move_down == is_registered,
        r.discovered == !is_registered,
{
    RowActions {
        ask_delete: is_registered,
        delete: is_registered,
        edit: is_registered,
        add: !is_registered,
        move_up: is_registered,
        move_down: is_registered,
        discovered: !is_registered,
    }
}

/// The stages of sending a magic packet from the main window: a toast that
/// the packet is being sent, then, once the packet went out or failed, that
/// toast is dismissed and one saying so is shown.
#[derive(Clone, Copy, Debug, PartialEq, Eq, Structural)]
pub enum WakeFeedback {
    Sending,
    Sent,
    Failed,
}

/// The message of the toast of each stage, before translation.
pub open spec fn wake_message(f: WakeFeedback) -> Seq<char> {
    match f {
        WakeFeedback::Sending => "Sending magic packet to device %s"@,
        WakeFeedback::Sent => "Sent magic packet to device %s"@,
        WakeFeedback::Failed => "Failed to send magic packet to device %s"@,
    }
}

impl WakeFeedback {
    /// The first stage, shown before the packet is sent.
    pub fn start() -> (r: Self)
        ensures
            r == WakeFeedback::Sending,
    {
        WakeFeedback::Sending
    }

    /// The stage after sending the packet, which went out (`sent`) or failed;
    /// it replaces the toast of the first stage.
    pub fn after_wake(sent: bool) -> (r: Self)
        ensures
            r == if sent {
                WakeFeedback::Sent
            } else {
                WakeFeedback::Failed
            },
    {
        if sent {
            WakeFeedback::Sent
        } else {
            WakeFeedback::Failed
        }
    }

    /// How many seconds the toast stays: 3, or 10 after a failure.
    pub fn timeout(&self) -> (r: u32)
        ensures
            *self is Failed ==> r == 10,
            !(*self is Failed) ==> r == 3,
    {
        match self {
            WakeFeedback::Failed => 10,
            _ => 3,
        }
    }

    /// The message of the toast, before translation; `%s` stands for the
    /// label of the device.
    pub fn message(&self) -> (r: &'static str)
        ensures
            r@ == wake_message(*self),
    {
        match self {
            WakeFeedback::Sending => "Sending magic packet to device %s",
            WakeFeedback::Sent => "Sent magic packet to device %s",
            WakeFeedback::Failed => "Failed to send magic packet to device %s",
        }
    }

    /// The title of the toast: the translation of its message with `%s`
    /// replaced by the label of the device.
    pub fn title(&self, label: &str) -> (r: String)
        ensures
            r@ == replace_all(wake_message(*self), "%s"@, label@),
    {
        let template = gettext(self.message());
        fill_one(template.as_str(), label)
    }
}

} // verus!
