//! The command line: turning on a device by its label, and listing devices
//! with whether they answered a ping.
use vstd::prelude::*;

use crate::model::{Device, DeviceView};
use crate::net::macaddr::mac_display;
use crate::text::{
    chars_of, dec_string, fill_one, fill_two, fill_two_spec, push_decimal, push_str, replace_all,
    str_eq,
};

verus! {

/// The position of the first device labelled `label`, if any.
pub fn find_device_by_label(devices: &[Device], label: &str) -> (r: Option<usize>)
    ensures
        match r {
            Some(i) => i < devices@.len() && devices@[i as int].label@ == label@ && forall|j: int|
                0 <= j < i ==> devices@[j].label@ != label@,
            None => forall|j: int| 0 <= j < devices@.len() ==> devices@[j].label@ != label@,
        },
{
    let mut i: usize = 0;
    while i < devices.len()
        invariant
            i <= devices@.len(),
            forall|j: int| 0 <= j < i ==> devices@[j].label@ != label@,
        decreases devices.len() - i,
    {
        if str_eq(devices[i].label.as_str(), label) {
            return Some(i);
        }
        i = i + 1;
    }
    None
}

/// The message after sending a magic packet: the translated `template` with
/// `%1` replaced by the hardware address and `%2` by the label.
pub fn turn_on_message(template: &str, device: &Device) -> (r: String)
    ensures
        r@ == fill_two_spec(template@, mac_display(device.mac_address@), device.label@),
{
    let mac = device.mac_address.to_string();
    fill_two(template, mac.as_str(), device.label.as_str())
}

/// The message after failing to send a magic packet: the translated
/// `template` with `%1` replaced by the label and `%2` by the error.
pub fn turn_on_error_message(template: &str, device: &Device, error: &str) -> (r: String)
    ensures
        r@ == fill_two_spec(template@, device.label@, error@),
{
    fill_two(template, device.label.as_str(), error)
}

/// The message about a label no device has: the translated `template` with
/// `%s` replaced by the label.
pub fn no_device_message(template: &str, label: &str) -> (r: String)
    ensures
        r@ == replace_all(template@, "%s"@, label@),
{
    fill_one(template, label)
}

/// `n` spaces.
pub open spec fn spaces(n: nat) -> Seq<char> {
    Seq::new(n, |i: int| ' ')
}

/// `s` padded with spaces on the right to `width` characters.
pub open spec fn pad_right(s: Seq<char>, width: nat) -> Seq<char> {
    if s.len() >= width {
        s
    } else {
        s + spaces((width - s.len()) as nat)
    }
}

/// `s` padded with spaces on the left to `width` characters.
pub open spec fn pad_left(s: Seq<char>, width: nat) -> Seq<char> {
    if s.len() >= width {
        s
    } else {
        spaces((width - s.len()) as nat) + s
    }
}

/// The colour escape of a device that answered (green) or not (red).
pub open spec fn status_color(ping: Option<u64>) -> Seq<char> {
    if ping is Some {
        "\x1b[1;32m"@
    } else {
        "\x1b[1;31m"@
    }
}

/// The round trip time, at least three digits wide, or a dot.
pub open spec fn status_indicator(ping: Option<u64>) -> Seq<char> {
    match ping {
        Some(ms) => pad_left(dec_string(ms as nat), 3) + "ms"@,
        None => "    ●"@,
    }
}

/// The line of a device that answered a ping within `ping` milliseconds, or
/// not at all: status, label, hardware address and host, label and host
/// padded to the given widths.
pub open spec fn device_line(d: DeviceView, ping: Option<u64>, label_width: nat, host_width: nat) -> Seq<
    char,
> {
    status_color(ping) + status_indicator(ping) + "\x1b[0m "@ + pad_right(d.label, label_width)
        + "\t"@ + mac_display(d.mac_address@) + "\t"@ + pad_right(d.host, host_width) + "\n"@
}

/// The length of the longest label.
pub open spec fn label_width(s: Seq<(Device, Option<u64>)>) -> nat
    decreases s.len(),
{
    if s.len() == 0 {
        0
    } else {
        let rest = label_width(s.drop_last());
        let w = s.last().0.label@.len();
        if w > rest {
            w
        } else {
            rest
        }
    }
}

/// The length of the longest host.
pub open spec fn host_width(s: Seq<(Device, Option<u64>)>) -> nat
    decreases s.len(),
{
    if s.len() == 0 {
        0
    } else {
        let rest = host_width(s.drop_last());
        let w = s.last().0.host@.len();
        if w > rest {
            w
        } else {
            rest
        }
    }
}

/// Append `n` spaces to `s`.
fn push_spaces(s: &mut String, n: usize)
    ensures
        final(s)@ == old(s)@ + spaces(n as nat),
{
    let mut i: usize = 0;
    while i < n
        invariant
            i <= n,
            s@ == old(s)@ + spaces(i as nat),
        decreases n - i,
    {
        push_str(s, " ");
        proof {
            reveal_strlit(" ");
        }
        i = i + 1;
        assert(s@ =~= old(s)@ + spaces(i as nat));
    }
}

/// Append `t`, padded with spaces on the right to `width` characters.
fn push_padded_right(s: &mut String, t: &str, width: usize)
    ensures
        final(s)@ == old(s)@ + pad_right(t@, width as nat),
{
    let n = chars_of(t).len();
    push_str(s, t);
    if n < width {
        push_spaces(s, width - n);
    }
    assert(s@ =~= old(s)@ + pad_right(t@, width as nat));
}

/// The line of one device.
pub fn render_device_line(
    device: &Device,
    ping: Option<u64>,
    label_width: usize,
    host_width: usize,
) -> (r: String)
    ensures
        r@ == device_line(device@, ping, label_width as nat, host_width as nat),
{
    let mut r = String::new();
    match ping {
        Some(ms) => {
            push_str(&mut r, "\x1b[1;32m");
            let digits = crate::text::decimal_string(ms);
            let n = chars_of(digits.as_str()).len();
            if n < 3 {
                push_spaces(&mut r, 3 - n);
            }
            push_decimal(&mut r, ms);
            push_str(&mut r, "ms");
        },
        None => {
            push_str(&mut r, "\x1b[1;31m");
            push_str(&mut r, "    ●");
        },
    }
    push_str(&mut r, "\x1b[0m ");
    push_padded_right(&mut r, device.label.as_str(), label_width);
    push_str(&mut r, "\t");
    let mac = device.mac_address.to_string();
    push_str(&mut r, mac.as_str());
    push_str(&mut r, "\t");
    push_padded_right(&mut r, device.host.as_str(), host_width);
    push_str(&mut r, "\n");
    assert(r@ =~= device_line(device@, ping, label_width as nat, host_width as nat));
    r
}

/// The lines listing devices with how they answered a ping, in order; labels
/// and hosts are padded to the longest label and host.
pub fn list_devices(pinged: &[(Device, Option<u64>)]) -> (r: Vec<String>)
    ensures
        r@.len() == pinged@.len(),
        forall|i: int|
            0 <= i < r@.len() ==> #[trigger] r@[i]@ == device_line(
                pinged@[i].0@,
                pinged@[i].1,
                label_width(pinged@),
                host_width(pinged@),
            ),
{
    let mut lw: usize = 0;
    let mut hw: usize = 0;
    let mut i: usize = 0;
    while i < pinged.len()
        invariant
            i <= pinged@.len(),
            lw == label_width(pinged@.subrange(0, i as int)),
            hw == host_width(pinged@.subrange(0, i as int)),
        decreases pinged.len() - i,
    {
        proof {
            assert(pinged@.subrange(0, i + 1).drop_last() =~= pinged@.subrange(0, i as int));
        }
        let l = chars_of(pinged[i].0.label.as_str()).len();
        let h = chars_of(pinged[i].0.host.as_str()).len();
        if l > lw {
            lw = l;
        }
        if h > hw {
            hw = h;
        }
        i = i + 1;
    }
    assert(pinged@.subrange(0, pinged@.len() as int) =~= pinged@);
    let mut r: Vec<String> = Vec::new();
    let mut k: usize = 0;
    while k < pinged.len()
        invariant
            k <= pinged@.len(),
            r@.len() == k,
            lw == label_width(pinged@),
            hw == host_width(pinged@),
            forall|j: int|
                0 <= j < k ==> #[trigger] r@[j]@ == device_line(
                    pinged@[j].0@,
                    pinged@[j].1,
                    lw as nat,
                    hw as nat,
                ),
        decreases pinged.len() - k,
    {
        r.push(render_device_line(&pinged[k].0, pinged[k].1, lw, hw));
        k = k + 1;
    }
    r
}

/// What an invocation from the command line does.
#[derive(Debug)]
pub enum CommandLineAction {
    /// List all devices with whether they answer a ping.
    ListDevices,
    /// Show the main window and open the dialog to add a device.
    AddDevice,
    /// Turn on the device with this label.
    TurnOnDevice(String),
    /// Show the main window.
    Activate,
}

/// The action for the options given on the command line, in order of
/// precedence: listing devices, adding a device, turning one on, and else
/// showing the main window.
pub fn command_line_action(
    list_devices: bool,
    add_device: bool,
    turn_on_device: Option<String>,
) -> (r: CommandLineAction)
    ensures
        list_devices ==> r is ListDevices,
        !list_devices && add_device ==> r is AddDevice,
        !list_devices && !add_device && turn_on_device is Some ==> (r matches CommandLineAction::TurnOnDevice(l)
            && l == turn_on_device.unwrap()),
        !list_devices && !add_device && turn_on_device is None ==> r is Activate,
{
    if list_devices {
        CommandLineAction::ListDevices
    } else if add_device {
        CommandLineAction::AddDevice
    } else {
        match turn_on_device {
            Some(label) => CommandLineAction::TurnOnDevice(label),
            None => CommandLineAction::Activate,
        }
    }
}

} // verus!
