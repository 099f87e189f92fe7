//! The link-layer address builder: constructs the binary address record that
//! the kernel accepts for binding or sending on a packet-family raw socket.
use vstd::prelude::*;

use crate::if_req::zero_bytes;
use crate::if_req::zero_seq;

verus! {

/// The address-family tag of packet-family sockets.
pub const AF_PACKET_FAMILY: u16 = 17;

/// Number of hardware-address bytes the record reserves.
pub const LL_ADDR_LEN: usize = 8;

/// The two-byte big-endian (network-order) encoding of a 16-bit value.
pub open spec fn be_bytes_u16(n: u16) -> Seq<u8> {
    seq![(n / 0x100) as u8, (n % 0x100) as u8]
}

/// A link-layer socket address: family tag, protocol identifier in network
/// byte order, interface index in host order, and the hardware-address
/// fields. Built once at bind time from a resolved index and immutable
/// thereafter.
#[derive(Debug, PartialEq, Eq)]
pub struct SockAddrLl {
    pub sll_family: u16,
    /// The protocol identifier, kept as its two network-order bytes.
    pub sll_protocol: Vec<u8>,
    pub sll_ifindex: i32,
    pub sll_hatype: u16,
    pub sll_pkttype: u8,
    pub sll_halen: u8,
    pub sll_addr: Vec<u8>,
}

impl SockAddrLl {
    /// The protocol field holds two bytes and the hardware-address field its
    /// reserved size.
    pub open spec fn wf(self) -> bool {
        self.sll_protocol@.len() == 2 && self.sll_addr@.len() == LL_ADDR_LEN
    }

    /// Builds the address for one interface: the record is zero-initialized,
    /// the family tag set to the packet family, the interface index stored in
    /// host order, and the protocol identifier converted to network byte
    /// order. The hardware-address fields stay zero: no peer is targeted.
    /// This is a pure construction; all fallibility lies with resolving the
    /// index upstream or with the bind call downstream.
    pub fn build(interface_index: i32, protocol_id: u16) -> (r: SockAddrLl)
        ensures
            r.wf(),
            r.sll_family == AF_PACKET_FAMILY,
            r.sll_protocol@ == be_bytes_u16(protocol_id),
            r.sll_ifindex == interface_index,
            r.sll_hatype == 0,
            r.sll_pkttype == 0,
            r.sll_halen == 0,
            r.sll_addr@ == zero_seq(LL_ADDR_LEN as nat),
    {
        let mut sll_protocol: Vec<u8> = Vec::new();
        sll_protocol.push((protocol_id / 0x100) as u8);
        sll_protocol.push((protocol_id % 0x100) as u8);
        proof {
            assert(sll_protocol@ =~= be_bytes_u16(protocol_id));
        }
        SockAddrLl {
            sll_family: AF_PACKET_FAMILY,
            sll_protocol,
            sll_ifindex: interface_index,
            sll_hatype: 0,
            sll_pkttype: 0,
            sll_halen: 0,
            sll_addr: zero_bytes(LL_ADDR_LEN),
        }
    }
}

} // verus!
