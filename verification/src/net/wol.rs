//! Wake On LAN magic packets.
use vstd::prelude::*;

use super::boxed::SocketAddrV4Boxed;
use super::ip::Ipv4Addr;
use super::macaddr::MacAddr6Boxed;

verus! {

/// The magic packet waking the device with hardware address `mac`: six bytes
/// `0xFF` followed by sixteen copies of the address, 102 bytes in all.
pub open spec fn magic_packet(mac: Seq<u8>) -> Seq<u8> {
    Seq::new(102, |i: int| if i < 6 { 0xFFu8 } else { mac[(i - 6) % 6] })
}

/// Fill a packet with `wol::fill_magic_packet`, which writes six bytes `0xFF`
/// and then sixteen copies of the address (`magic_packet`).
#[verifier::external_body]
fn fill_magic_packet(mac: [u8; 6]) -> (r: [u8; 102])
    ensures
        r@ == magic_packet(mac@),
{
    let mut buffer = [0u8; 102];
    wol::fill_magic_packet(&mut buffer, wol::MacAddress::from(mac));
    buffer
}

/// The magic packet for `mac_address`.
pub fn magic_packet_for(mac_address: &MacAddr6Boxed) -> (r: [u8; 102])
    ensures
        r@ == magic_packet(mac_address@),
        r@.len() == 102,
        forall|i: int| 0 <= i < 6 ==> #[trigger] r@[i] == 0xFFu8,
        forall|k: int, j: int|
            0 <= k < 16 && 0 <= j < 6 ==> #[trigger] r@[6 + 6 * k + j] == mac_address@[j],
{
    let r = fill_magic_packet(mac_address.bytes());
    proof {
        assert forall|k: int, j: int| 0 <= k < 16 && 0 <= j < 6 implies #[trigger] r@[6 + 6 * k + j]
            == mac_address@[j] by {
            assert((6 + 6 * k + j - 6) % 6 == j) by (nonlinear_arith)
                requires
                    0 <= k < 16,
                    0 <= j < 6,
            ;
        }
    }
    r
}

/// The default target of magic packets: the IPv4 broadcast address, port 9.
pub fn wol_default_target_address() -> (r: SocketAddrV4Boxed)
    ensures
        r.ip@ == seq![255u8, 255u8, 255u8, 255u8],
        r.port == 9,
{
    SocketAddrV4Boxed::new(Ipv4Addr::broadcast(), 9)
}

} // verus!
