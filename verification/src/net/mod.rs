//! Networking values: hardware and IP addresses, ARP cache entries, magic
//! packets, ICMP echo packets and the decisions of the reachability monitor.
pub mod macaddr;
pub mod parse;
pub mod ip;
pub mod boxed;
pub mod arpcache;
pub mod wol;
pub mod ping;
pub mod raw_echo;
pub mod monitor;
pub mod http;
