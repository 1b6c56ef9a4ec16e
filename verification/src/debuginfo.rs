//! The plain-text debug report: application, sandbox, connectivity, how each
//! device answered a ping, and the ARP cache.
use vstd::prelude::*;

use crate::model::Device;
use crate::text::{dec_string, join, join_strings, push_decimal, push_str, texts};

verus! {

/// Overall network connectivity.
#[derive(Debug)]
pub enum Connectivity {
    Local,
    Limited,
    Portal,
    Full,
    /// Any other state, by its debug rendering.
    Other(String),
}

/// How a device answered when pinged once.
#[derive(Debug)]
pub enum DevicePingResult {
    /// Its host could not be resolved; the error message.
    ResolveFailed(String),
    /// Each address of its host, with the round trip time in milliseconds or
    /// the error message of the ping.
    Pinged(Vec<(String, Result<u64, String>)>),
}

/// The information a debug report shows.
#[derive(Debug)]
pub struct DebugInfo {
    /// The application ID, which tells development builds from releases.
    pub app_id: String,
    pub version: String,
    /// Whether the application runs in a flatpak sandbox.
    pub flatpak: bool,
    pub connectivity: Connectivity,
    /// The host of each device, with how it answered a ping.
    pub ping_results: Vec<(String, DevicePingResult)>,
    /// The contents of the ARP cache, or the error message of reading it.
    pub arp_cache_contents: Result<String, String>,
    /// The entries of the ARP cache in their debug rendering, or the error
    /// message of reading them.
    pub parsed_arp_cache: Result<Vec<String>, String>,
}

/// The warning after the title of the report, up to the flatpak flag.
pub const REPORT_WARNING: &'static str = "

THIS REPORT CONTAINS HOST NAMES, IP ADDRESSES, AND HARDWARE ADDRESSES OF YOUR DEVICES.

IF YOU CONSIDER THIS REPORT SENSITIVE DO NOT POST IT PUBLICLY!

Flatpak? ";

/// The name of a connectivity state.
pub open spec fn connectivity_text(c: Connectivity) -> Seq<char> {
    match c {
        Connectivity::Local => "Local"@,
        Connectivity::Limited => "Limited"@,
        Connectivity::Portal => "Portal"@,
        Connectivity::Full => "Full"@,
        Connectivity::Other(s) => "Other "@ + s@,
    }
}

/// `true` or `false`.
pub open spec fn bool_text(b: bool) -> Seq<char> {
    if b {
        "true"@
    } else {
        "false"@
    }
}

/// The line of one pinged address.
pub open spec fn address_line(a: (String, Result<u64, String>)) -> Seq<char> {
    "    "@ + a.0@ + ": "@ + match a.1 {
        Ok(ms) => dec_string(ms as nat) + "ms"@,
        Err(e) => e@,
    }
}

/// The lines of the pinged addresses.
pub open spec fn address_lines(v: Seq<(String, Result<u64, String>)>) -> Seq<Seq<char>> {
    v.map_values(|a: (String, Result<u64, String>)| address_line(a))
}

/// The section of one device with host `host`.
pub open spec fn device_section(host: String, r: DevicePingResult) -> Seq<char> {
    match r {
        DevicePingResult::ResolveFailed(e) => "Host "@ + host@ + "\n    Failed to resolve: "@ + e@,
        DevicePingResult::Pinged(v) => "Host "@ + host@ + ":\n"@ + join(address_lines(v@), "\n"@),
    }
}

/// The sections of all devices.
pub open spec fn device_sections(v: Seq<(String, DevicePingResult)>) -> Seq<Seq<char>> {
    v.map_values(|d: (String, DevicePingResult)| device_section(d.0, d.1))
}

/// A text, or the message of the failure to get it.
pub open spec fn text_or_failure(r: Result<Seq<char>, Seq<char>>) -> Seq<char> {
    match r {
        Ok(t) => t,
        Err(e) => "Failed: "@ + e,
    }
}

/// The raw ARP cache section.
pub open spec fn arp_contents_text(r: Result<String, String>) -> Seq<char> {
    match r {
        Ok(t) => text_or_failure(Ok(t@)),
        Err(e) => text_or_failure(Err(e@)),
    }
}

/// The parsed ARP cache section: one entry per line.
pub open spec fn parsed_arp_text(r: Result<Vec<String>, String>) -> Seq<char> {
    match r {
        Ok(v) => text_or_failure(Ok(join(texts(v@), "\n"@))),
        Err(e) => text_or_failure(Err(e@)),
    }
}

/// The whole report, ending with a line break.
pub open spec fn report_text(d: DebugInfo) -> Seq<char> {
    "DEBUG REPORT "@ + d.app_id@ + " "@ + d.version@ + REPORT_WARNING@ + bool_text(d.flatpak)
        + "\nNetwork connectivity: "@ + connectivity_text(d.connectivity) + "\n\n"@ + join(
        device_sections(d.ping_results@),
        "\n"@,
    ) + "\n\nARP cache contents:\n"@ + arp_contents_text(d.arp_cache_contents)
        + "\n\nParsed ARP cache:\n"@ + parsed_arp_text(d.parsed_arp_cache) + "\n"@
}

/// The names of the four known connectivity states are the states' own
/// names, and no two of them are alike.
pub proof fn lemma_connectivity_names()
    ensures
        connectivity_text(Connectivity::Local) == "Local"@,
        connectivity_text(Connectivity::Limited) == "Limited"@,
        connectivity_text(Connectivity::Portal) == "Portal"@,
        connectivity_text(Connectivity::Full) == "Full"@,
        "Local"@ != "Limited"@,
        "Local"@ != "Portal"@,
        "Local"@ != "Full"@,
        "Limited"@ != "Portal"@,
        "Limited"@ != "Full"@,
        "Portal"@ != "Full"@,
{
    reveal_strlit("Local");
    reveal_strlit("Limited");
    reveal_strlit("Portal");
    reveal_strlit("Full");
    assert("Local"@.len() != "Limited"@.len());
    assert("Local"@[0] != "Portal"@[0]);
    assert("Local"@.len() != "Full"@.len());
    assert("Limited"@.len() != "Portal"@.len());
    assert("Limited"@.len() != "Full"@.len());
    assert("Portal"@.len() != "Full"@.len());
}

/// The line that names the connectivity `c` in the report.
pub open spec fn connectivity_line(c: Connectivity) -> Seq<char> {
    "\nNetwork connectivity: "@ + match c {
        Connectivity::Local => "Local"@,
        Connectivity::Limited => "Limited"@,
        Connectivity::Portal => "Portal"@,
        Connectivity::Full => "Full"@,
        Connectivity::Other(s) => "Other "@ + s@,
    } + "\n"@
}

/// The report holds the line naming the connectivity of `d`.
pub proof fn lemma_report_names_connectivity(d: DebugInfo)
    ensures
        exists|k: int|
            0 <= k && k + connectivity_line(d.connectivity).len() <= report_text(d).len()
                && #[trigger] report_text(d).subrange(k, k + connectivity_line(d.connectivity).len())
                == connectivity_line(d.connectivity),
{
    let a = "DEBUG REPORT "@ + d.app_id@ + " "@ + d.version@ + REPORT_WARNING@ + bool_text(
        d.flatpak,
    );
    let line = connectivity_line(d.connectivity);
    let rest = "\n"@ + join(device_sections(d.ping_results@), "\n"@) + "\n\nARP cache contents:\n"@
        + arp_contents_text(d.arp_cache_contents) + "\n\nParsed ARP cache:\n"@ + parsed_arp_text(
        d.parsed_arp_cache,
    ) + "\n"@;
    reveal_strlit("\n\n");
    reveal_strlit("\n");
    assert("\n\n"@ =~= "\n"@ + "\n"@);
    assert(report_text(d) =~= a + line + rest);
    assert((a + line + rest).subrange(a.len() as int, (a.len() + line.len()) as int) =~= line);
}

/// Copy of `s`.
fn copy_of(s: &str) -> (r: String)
    ensures
        r@ == s@,
{
    let mut r = String::new();
    push_str(&mut r, s);
    assert(r@ =~= s@);
    r
}

/// The line of one pinged address.
fn render_address_line(a: &(String, Result<u64, String>)) -> (r: String)
    ensures
        r@ == address_line(*a),
{
    let mut r = String::new();
    push_str(&mut r, "    ");
    push_str(&mut r, a.0.as_str());
    push_str(&mut r, ": ");
    match &a.1 {
        Ok(ms) => {
            push_decimal(&mut r, *ms);
            push_str(&mut r, "ms");
        },
        Err(e) => {
            push_str(&mut r, e.as_str());
        },
    }
    assert(r@ =~= address_line(*a));
    r
}

/// The section of one device.
fn render_device_section(host: &String, result: &DevicePingResult) -> (r: String)
    ensures
        r@ == device_section(*host, *result),
{
    let mut r = String::new();
    push_str(&mut r, "Host ");
    push_str(&mut r, host.as_str());
    match result {
        DevicePingResult::ResolveFailed(e) => {
            push_str(&mut r, "\n    Failed to resolve: ");
            push_str(&mut r, e.as_str());
        },
        DevicePingResult::Pinged(addresses) => {
            push_str(&mut r, ":\n");
            let mut lines: Vec<String> = Vec::new();
            let mut i: usize = 0;
            while i < addresses.len()
                invariant
                    i <= addresses@.len(),
                    lines@.len() == i,
                    forall|k: int| 0 <= k < i ==> #[trigger] lines@[k]@ == address_line(addresses@[k]),
                decreases addresses.len() - i,
            {
                lines.push(render_address_line(&addresses[i]));
                i = i + 1;
            }
            assert(texts(lines@) =~= address_lines(addresses@));
            let joined = join_strings(lines.as_slice(), "\n");
            push_str(&mut r, joined.as_str());
        },
    }
    assert(r@ =~= device_section(*host, *result));
    r
}

impl DebugInfo {
    /// The report, as plain text.
    pub fn to_string(&self) -> (r: String)
        ensures
            r@ == report_text(*self),
            exists|k: int|
                0 <= k && k + connectivity_line(self.connectivity).len() <= r@.len()
                    && #[trigger] r@.subrange(k, k + connectivity_line(self.connectivity).len())
                    == connectivity_line(self.connectivity),
    {
        proof {
            lemma_report_names_connectivity(*self);
        }
        let mut sections: Vec<String> = Vec::new();
        let mut i: usize = 0;
        while i < self.ping_results.len()
            invariant
                i <= self.ping_results@.len(),
                sections@.len() == i,
                forall|k: int|
                    0 <= k < i ==> #[trigger] sections@[k]@ == device_section(
                        self.ping_results@[k].0,
                        self.ping_results@[k].1,
                    ),
            decreases self.ping_results.len() - i,
        {
            let entry = &self.ping_results[i];
            sections.push(render_device_section(&entry.0, &entry.1));
            i = i + 1;
        }
        assert(texts(sections@) =~= device_sections(self.ping_results@));
        let pings = join_strings(sections.as_slice(), "\n");

        let mut r = String::new();
        push_str(&mut r, "DEBUG REPORT ");
        push_str(&mut r, self.app_id.as_str());
        push_str(&mut r, " ");
        push_str(&mut r, self.version.as_str());
        push_str(&mut r, REPORT_WARNING);
        push_str(&mut r, if self.flatpak { "true" } else { "false" });
        push_str(&mut r, "\nNetwork connectivity: ");
        match &self.connectivity {
            Connectivity::Local => push_str(&mut r, "Local"),
            Connectivity::Limited => push_str(&mut r, "Limited"),
            Connectivity::Portal => push_str(&mut r, "Portal"),
            Connectivity::Full => push_str(&mut r, "Full"),
            Connectivity::Other(s) => {
                push_str(&mut r, "Other ");
                push_str(&mut r, s.as_str());
            },
        }
        push_str(&mut r, "\n\n");
        push_str(&mut r, pings.as_str());
        push_str(&mut r, "\n\nARP cache contents:\n");
        match &self.arp_cache_contents {
            Ok(contents) => push_str(&mut r, contents.as_str()),
            Err(e) => {
                push_str(&mut r, "Failed: ");
                push_str(&mut r, e.as_str());
            },
        }
        push_str(&mut r, "\n\nParsed ARP cache:\n");
        match &self.parsed_arp_cache {
            Ok(entries) => {
                let joined = join_strings(entries.as_slice(), "\n");
                push_str(&mut r, joined.as_str());
            },
            Err(e) => {
                push_str(&mut r, "Failed: ");
                push_str(&mut r, e.as_str());
            },
        }
        push_str(&mut r, "\n");
        assert(r@ =~= report_text(*self));
        r
    }

    /// The file name to suggest for saving the report:
    /// `<app id>-<version>-debug.txt`.
    pub fn suggested_file_name(&self) -> (r: String)
        ensures
            r@ == self.app_id@ + "-"@ + self.version@ + "-debug.txt"@,
    {
        let mut r = copy_of(self.app_id.as_str());
        push_str(&mut r, "-");
        push_str(&mut r, self.version.as_str());
        push_str(&mut r, "-debug.txt");
        r
    }
}

/// The message of a timeout after `millis` milliseconds.
pub fn timeout_message(millis: u64) -> (r: String)
    ensures
        r@ == "Timeout after "@ + dec_string(millis as nat) + "ms"@,
{
    let mut r = copy_of("Timeout after ");
    push_decimal(&mut r, millis);
    push_str(&mut r, "ms");
    r
}

/// The message of a timeout after `secs` seconds.
pub fn timeout_message_secs(secs: u64) -> (r: String)
    ensures
        r@ == "Timeout after "@ + dec_string(secs as nat) + "s"@,
{
    let mut r = copy_of("Timeout after ");
    push_decimal(&mut r, secs);
    push_str(&mut r, "s");
    r
}

/// The message of a host name that resolved to no address.
pub fn no_addresses_message(host: &str) -> (r: String)
    ensures
        r@ == "No addresses found for "@ + host@,
{
    let mut r = copy_of("No addresses found for ");
    push_str(&mut r, host);
    r
}

/// The hosts the report pings, in order: `localhost` first, then the host
/// of each registered device.
pub fn report_hosts(devices: &[Device]) -> (r: Vec<String>)
    ensures
        r@.len() == devices@.len() + 1,
        r@[0]@ == "localhost"@,
        forall|i: int| 0 <= i < devices@.len() ==> #[trigger] r@[i + 1]@ == devices@[i].host@,
{
    let mut r: Vec<String> = Vec::new();
    r.push(copy_of("localhost"));
    let mut i: usize = 0;
    while i < devices.len()
        invariant
            i <= devices@.len(),
            r@.len() == i + 1,
            r@[0]@ == "localhost"@,
            forall|k: int| 0 <= k < i ==> #[trigger] r@[k + 1]@ == devices@[k].host@,
        decreases devices.len() - i,
    {
        r.push(copy_of(devices[i].host.as_str()));
        i = i + 1;
    }
    r
}

} // verus!
