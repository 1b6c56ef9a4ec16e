//! Wake-on-LAN device management: MAC and IP addresses, ARP cache parsing,
//! magic packets, ICMP echo packets, the device model and the GNOME Shell
//! search provider logic.
use vstd::prelude::*;

pub mod text;
pub mod net;
pub mod model;
pub mod storage;
pub mod dbus;
pub mod searchprovider;
pub mod config;
pub mod i18n;
pub mod debuginfo;
pub mod commandline;
pub mod widgets;

verus! {
} // verus!
