//! The search provider: which devices match search terms, what GNOME Shell
//! shows for them, and what activating a result does.
//!
//! The identifier of a device is its position in the list of devices, in
//! decimal.
use vstd::prelude::*;

use crate::dbus::MethodCall;
use crate::i18n::gettext;
use crate::model::{Device, DeviceView};
use crate::net::macaddr::mac_display;
use crate::net::parse::{lemma_parse_uint_dec_string, parse_uint};
use crate::net::parse::parse_uint_chars;
use crate::text::{texts, chars_of, contains_chars, contains_seq, dec_string, decimal_string, fill_two, fill_two_spec};

verus! {

/// What `str::to_lowercase` returns for `s`.
pub uninterp spec fn spec_to_lowercase(s: Seq<char>) -> Seq<char>;

/// `s` in lower case, by `str::to_lowercase` (full Unicode case mapping); the
/// result is named by `spec_to_lowercase`.
#[verifier::external_body]
fn to_lowercase(s: &str) -> (r: String)
    ensures
        r@ == spec_to_lowercase(s@),
{
    s.to_lowercase()
}

/// Whether the device `d` matches every one of `terms`: each term, ignoring
/// case, occurs in its label or in its host.  The hardware address is not searched.
pub open spec fn matches_terms_spec(d: DeviceView, terms: Seq<Seq<char>>) -> bool {
    forall|i: int|
        0 <= i < terms.len() ==> contains_seq(
            spec_to_lowercase(d.label),
            spec_to_lowercase(#[trigger] terms[i]),
        ) || contains_seq(spec_to_lowercase(d.host), spec_to_lowercase(terms[i]))
}

/// Whether `device` matches all of `terms`.
pub fn matches_terms(device: &Device, terms: &[String]) -> (r: bool)
    ensures
        r == matches_terms_spec(device@, texts(terms@)),
{
    let label = to_lowercase(device.label.as_str());
    let host = to_lowercase(device.host.as_str());
    let label_chars = chars_of(label.as_str());
    let host_chars = chars_of(host.as_str());
    let mut i: usize = 0;
    while i < terms.len()
        invariant
            i <= terms@.len(),
            label_chars@ == spec_to_lowercase(device.label@),
            host_chars@ == spec_to_lowercase(device.host@),
            forall|k: int|
                0 <= k < i ==> contains_seq(
                    spec_to_lowercase(device.label@),
                    spec_to_lowercase(#[trigger] texts(terms@)[k]),
                ) || contains_seq(spec_to_lowercase(device.host@), spec_to_lowercase(texts(terms@)[k])),
        decreases terms.len() - i,
    {
        let term = to_lowercase(terms[i].as_str());
        let term_chars = chars_of(term.as_str());
        assert(texts(terms@)[i as int] == terms@[i as int]@);
        if !contains_chars(label_chars.as_slice(), term_chars.as_slice()) && !contains_chars(
            host_chars.as_slice(),
            term_chars.as_slice(),
        ) {
            return false;
        }
        i = i + 1;
    }
    true
}

/// The identifiers of the devices among `devices` that match `terms`, in order.
pub open spec fn matching_ids(devices: Seq<DeviceView>, terms: Seq<Seq<char>>) -> Seq<Seq<char>>
    decreases devices.len(),
{
    if devices.len() == 0 {
        seq![]
    } else {
        let rest = matching_ids(devices.drop_last(), terms);
        if matches_terms_spec(devices.last(), terms) {
            rest.push(dec_string((devices.len() - 1) as nat))
        } else {
            rest
        }
    }
}

/// The result set is complete: the identifier of every device that matches
/// the terms is in it.
pub proof fn lemma_result_ids_complete(devices: Seq<DeviceView>, terms: Seq<Seq<char>>, i: int)
    requires
        0 <= i < devices.len(),
        matches_terms_spec(devices[i], terms),
    ensures
        matching_ids(devices, terms).contains(dec_string(i as nat)),
    decreases devices.len(),
{
    let rest = matching_ids(devices.drop_last(), terms);
    if i == devices.len() - 1 {
        assert(matching_ids(devices, terms) == rest.push(dec_string(i as nat)));
        assert(matching_ids(devices, terms)[rest.len() as int] == dec_string(i as nat));
    } else {
        assert(devices.drop_last()[i] == devices[i]);
        lemma_result_ids_complete(devices.drop_last(), terms, i);
        let k = choose|k: int| 0 <= k < rest.len() && rest[k] == dec_string(i as nat);
        if matches_terms_spec(devices.last(), terms) {
            assert(matching_ids(devices, terms)[k] == rest[k]);
        }
    }
}

/// The views of devices.
pub open spec fn device_views(s: Seq<Device>) -> Seq<DeviceView> {
    s.map_values(|d: Device| d@)
}

/// The identifiers of all devices that match all of `terms`, in label or host.
pub fn get_ids_for_terms(devices: &[Device], terms: &[String]) -> (r: Vec<String>)
    ensures
        texts(r@) == matching_ids(device_views(devices@), texts(terms@)),
        forall|i: int|
            0 <= i < devices@.len() && matches_terms_spec(devices@[i]@, texts(terms@))
                ==> #[trigger] texts(r@).contains(dec_string(i as nat)),
{
    let mut r: Vec<String> = Vec::new();
    let mut i: usize = 0;
    while i < devices.len()
        invariant
            i <= devices@.len(),
            texts(r@) == matching_ids(device_views(devices@.subrange(0, i as int)), texts(terms@)),
        decreases devices.len() - i,
    {
        let ghost before = r@;
        proof {
            assert(device_views(devices@.subrange(0, i + 1)).drop_last() =~= device_views(
                devices@.subrange(0, i as int),
            ));
            assert(device_views(devices@.subrange(0, i + 1)).last() == devices@[i as int]@);
        }
        if matches_terms(&devices[i], terms) {
            let id = decimal_string(i as u64);
            r.push(id);
            assert(texts(r@) =~= texts(before).push(id@));
        }
        i = i + 1;
    }
    assert(devices@.subrange(0, devices@.len() as int) =~= devices@);
    proof {
        assert forall|i: int|
            0 <= i < devices@.len() && matches_terms_spec(devices@[i]@, texts(terms@))
                implies #[trigger] texts(r@).contains(dec_string(i as nat)) by {
            assert(device_views(devices@)[i] == devices@[i]@);
            lemma_result_ids_complete(device_views(devices@), texts(terms@), i);
        }
    }
    r
}

/// What GNOME Shell shows for a result: its identifier, name and description.
#[derive(Debug)]
pub struct ResultMeta {
    pub id: String,
    pub name: String,
    pub description: String,
}

/// The device an identifier refers to: its decimal position, if it is a
/// position in `devices`.
pub open spec fn device_index(id: Seq<char>, n: nat) -> Option<nat> {
    match parse_uint(id, 10, 0xFFFF_FFFF) {
        Ok(v) => if v < n {
            Some(v)
        } else {
            None
        },
        Err(_) => None,
    }
}

/// The identifier of the device at a position refers back to that position.
pub proof fn lemma_identifier_refers_to_position(i: nat, n: nat)
    requires
        i < n,
        i <= 0xFFFF_FFFF,
    ensures
        device_index(dec_string(i), n) == Some(i),
{
    lemma_parse_uint_dec_string(i, 0xFFFF_FFFF);
}

/// Every identifier of a result set refers to a device that matches the terms
/// of the search.
pub proof fn lemma_result_ids_refer_to_matches(devices: Seq<DeviceView>, terms: Seq<Seq<char>>, k: int)
    requires
        devices.len() <= 0x1_0000_0000,
        0 <= k < matching_ids(devices, terms).len(),
    ensures
        device_index(matching_ids(devices, terms)[k], devices.len()) matches Some(i)
            && matches_terms_spec(devices[i as int], terms),
    decreases devices.len(),
{
    let rest = matching_ids(devices.drop_last(), terms);
    if k < rest.len() {
        lemma_result_ids_refer_to_matches(devices.drop_last(), terms, k);
        let i = device_index(rest[k], (devices.len() - 1) as nat)->0;
        assert(matching_ids(devices, terms)[k] == rest[k]);
        assert(devices.drop_last()[i as int] == devices[i as int]);
    } else {
        let last = (devices.len() - 1) as nat;
        lemma_identifier_refers_to_position(last, devices.len());
    }
}

/// The position of the device `identifier` refers to.
pub fn device_for_identifier(devices: &[Device], identifier: &str) -> (r: Option<usize>)
    ensures
        match device_index(identifier@, devices@.len()) {
            Some(v) => r == Some(v as usize),
            None => r is None,
        },
{
    let cs = chars_of(identifier);
    match parse_uint_chars(cs.as_slice(), 10, 0xFFFF_FFFF) {
        Ok(v) => if v < devices.len() as u64 {
            Some(v as usize)
        } else {
            None
        },
        Err(_) => None,
    }
}

/// The metas of the identifiers that refer to devices, in order: the identifier,
/// the label as name, the host as description.
pub open spec fn result_metas(devices: Seq<DeviceView>, ids: Seq<Seq<char>>) -> Seq<
    (Seq<char>, Seq<char>, Seq<char>),
>
    decreases ids.len(),
{
    if ids.len() == 0 {
        seq![]
    } else {
        let rest = result_metas(devices, ids.drop_last());
        match device_index(ids.last(), devices.len()) {
            Some(v) => rest.push((ids.last(), devices[v as int].label, devices[v as int].host)),
            None => rest,
        }
    }
}

/// The views of metas.
pub open spec fn meta_views(s: Seq<ResultMeta>) -> Seq<(Seq<char>, Seq<char>, Seq<char>)> {
    s.map_values(|m: ResultMeta| (m.id@, m.name@, m.description@))
}

/// The metas for the identifiers of a `GetResultMetas` call; identifiers that
/// refer to no device are skipped.
pub fn get_result_metas(devices: &[Device], identifiers: &[String]) -> (r: Vec<ResultMeta>)
    ensures
        meta_views(r@) == result_metas(device_views(devices@), texts(identifiers@)),
{
    let mut r: Vec<ResultMeta> = Vec::new();
    let mut i: usize = 0;
    while i < identifiers.len()
        invariant
            i <= identifiers@.len(),
            meta_views(r@) == result_metas(
                device_views(devices@),
                texts(identifiers@.subrange(0, i as int)),
            ),
        decreases identifiers.len() - i,
    {
        let ghost before = r@;
        proof {
            assert(texts(identifiers@.subrange(0, i + 1)).drop_last() =~= texts(
                identifiers@.subrange(0, i as int),
            ));
            assert(texts(identifiers@.subrange(0, i + 1)).last() == identifiers@[i as int]@);
        }
        match device_for_identifier(devices, identifiers[i].as_str()) {
            Some(n) => {
                let meta = ResultMeta {
                    id: identifiers[i].clone(),
                    name: devices[n].label(),
                    description: devices[n].host(),
                };
                r.push(meta);
                assert(meta_views(r@) =~= meta_views(before).push(
                    (identifiers@[i as int]@, devices@[n as int]@.label, devices@[n as int]@.host),
                ));
            },
            None => {},
        }
        i = i + 1;
    }
    assert(identifiers@.subrange(0, identifiers@.len() as int) =~= identifiers@);
    r
}

/// What the search provider answers to a method call.
#[derive(Debug)]
pub enum SearchResponse {
    /// The identifiers of the matching devices.
    ResultSet(Vec<String>),
    /// The metas of the requested results.
    ResultMetas(Vec<ResultMeta>),
    /// Send a magic packet to the device at this position, or nothing if the
    /// identifier refers to no device.
    Activate(Option<usize>),
    /// Raise the main window.
    LaunchSearch,
}

/// Answer `call` on `devices`.  A sub-search searches afresh, ignoring the
/// previous results.
pub fn dispatch_method_call(devices: &[Device], call: &MethodCall) -> (r: SearchResponse)
    ensures
        match call {
            MethodCall::GetInitialResultSet(c) => r matches SearchResponse::ResultSet(ids) && texts(
                ids@,
            ) == matching_ids(device_views(devices@), texts(c.terms@)),
            MethodCall::GetSubsearchResultSet(c) => r matches SearchResponse::ResultSet(ids)
                && texts(ids@) == matching_ids(device_views(devices@), texts(c.terms@)),
            MethodCall::GetResultMetas(c) => r matches SearchResponse::ResultMetas(m) && meta_views(
                m@,
            ) == result_metas(device_views(devices@), texts(c.identifiers@)),
            MethodCall::ActivateResult(c) => r matches SearchResponse::Activate(n) && match
                device_index(c.identifier@, devices@.len()) {
                Some(v) => n == Some(v as usize),
                None => n is None,
            },
            MethodCall::LaunchSearch(_) => r matches SearchResponse::LaunchSearch,
        },
{
    match call {
        MethodCall::GetInitialResultSet(c) => SearchResponse::ResultSet(
            get_ids_for_terms(devices, c.terms.as_slice()),
        ),
        MethodCall::GetSubsearchResultSet(c) => SearchResponse::ResultSet(
            get_ids_for_terms(devices, c.terms.as_slice()),
        ),
        MethodCall::GetResultMetas(c) => SearchResponse::ResultMetas(
            get_result_metas(devices, c.identifiers.as_slice()),
        ),
        MethodCall::ActivateResult(c) => SearchResponse::Activate(
            device_for_identifier(devices, c.identifier.as_str()),
        ),
        MethodCall::LaunchSearch(_) => SearchResponse::LaunchSearch,
    }
}

/// Fill the translated `template` of a notification about a device: `%1`
/// becomes the hardware address, then `%2` the label.
pub fn notification_body(template: &str, mac_address: &str, label: &str) -> (r: String)
    ensures
        r@ == fill_two_spec(template@, mac_address@, label@),
{
    fill_two(template, mac_address, label)
}

/// How to notify about activating a result.
#[derive(Clone, Copy, Debug, PartialEq, Eq, Structural)]
pub struct ActivationNotice {
    /// Whether the magic packet was sent.
    pub sent: bool,
    /// Whether the notification is urgent.
    pub urgent: bool,
    /// After how many seconds to withdraw the notification, if at all.
    pub withdraw_after_secs: Option<u32>,
}

/// The title of the notification, before translation.
pub open spec fn notice_title(sent: bool) -> Seq<char> {
    if sent {
        "Sent magic packet"@
    } else {
        "Failed to send magic packet"@
    }
}

/// The body of the notification, before translation; `%1` stands for the
/// hardware address and `%2` for the label of the device.
pub open spec fn notice_body(sent: bool) -> Seq<char> {
    if sent {
        "Sent magic packet to mac address %1 of device %2."@
    } else {
        "Failed to send magic packet to mac address %1 of device %2."@
    }
}

impl ActivationNotice {
    /// The title of the notification, before translation.
    pub fn title(&self) -> (r: &'static str)
        ensures
            r@ == notice_title(self.sent),
    {
        if self.sent {
            "Sent magic packet"
        } else {
            "Failed to send magic packet"
        }
    }

    /// The template of the body of the notification, before translation.
    pub fn body_template(&self) -> (r: &'static str)
        ensures
            r@ == notice_body(self.sent),
    {
        if self.sent {
            "Sent magic packet to mac address %1 of device %2."
        } else {
            "Failed to send magic packet to mac address %1 of device %2."
        }
    }

    /// The body of the notification about `device`: the translation of the
    /// template with `%1` replaced by the hardware address and `%2` by the
    /// label.
    pub fn body(&self, device: &Device) -> (r: String)
        ensures
            r@ == fill_two_spec(notice_body(self.sent), mac_display(device.mac_address@), device.label@),
    {
        let template = gettext(self.body_template());
        let mac = device.mac_address.to_string();
        notification_body(template.as_str(), mac.as_str(), device.label.as_str())
    }
}

/// The notification after activating a result: a failure is urgent and
/// stays; a success is withdrawn after ten seconds.
pub fn activation_notice(sent: bool) -> (r: ActivationNotice)
    ensures
        r.sent == sent,
        r.urgent == !sent,
        sent ==> r.withdraw_after_secs == Some(10u32),
        !sent ==> r.withdraw_after_secs is None,
{
    if sent {
        ActivationNotice { sent, urgent: false, withdraw_after_secs: Some(10) }
    } else {
        ActivationNotice { sent, urgent: true, withdraw_after_secs: None }
    }
}

/// The reply to activating a result once the magic packet went out or
/// failed: a reply without value on success, the error of sending otherwise.
pub fn activation_reply<E>(wake: Result<(), E>) -> (r: Result<Option<SearchResponse>, E>)
    ensures
        wake is Ok ==> r == Ok::<Option<SearchResponse>, E>(None),
        wake matches Err(e) ==> r == Err::<Option<SearchResponse>, E>(e),
{
    match wake {
        Ok(()) => Ok(None),
        Err(e) => Err(e),
    }
}

} // verus!
