//! The four values that identify a connection.

use vstd::prelude::*;
use crate::wire::{Ipv4Fields, TcpFields};

verus! {

/// The identity of a connection as this endpoint sees it: where the peer's
/// segments come from and where they go. Addresses hold the most significant
/// byte first.
#[derive(Clone, Copy, Debug, PartialEq, Eq, Hash, Structural)]
pub struct Quad {
    pub src_ip: u32,
    pub src_port: u16,
    pub dst_ip: u32,
    pub dst_port: u16,
}

impl Quad {
    /// The quad of a segment with TCP header `tcph` in a packet with IPv4 header `iph`.
    pub open spec fn of(iph: Ipv4Fields, tcph: TcpFields) -> Quad {
        Quad {
            src_ip: iph.source,
            src_port: tcph.source_port,
            dst_ip: iph.destination,
            dst_port: tcph.destination_port,
        }
    }

    /// The quad as one number: the four values side by side, 32, 16, 32 and 16
    /// bits wide, the source address in the highest place.
    pub open spec fn key(self) -> u128 {
        (((self.src_ip * 0x1_0000 + self.src_port) * 0x1_0000_0000 + self.dst_ip) * 0x1_0000
            + self.dst_port) as u128
    }

    /// The quad of a segment with TCP header `tcph` in a packet with IPv4 header `iph`.
    pub fn from_headers(iph: &Ipv4Fields, tcph: &TcpFields) -> (quad: Quad)
        ensures
            quad == Quad::of(*iph, *tcph),
    {
        Quad {
            src_ip: iph.source,
            src_port: tcph.source_port,
            dst_ip: iph.destination,
            dst_port: tcph.destination_port,
        }
    }

    /// The quad as one number, see [`Quad::key`].
    pub fn to_key(&self) -> (k: u128)
        ensures
            k == self.key(),
    {
        let src: u128 = self.src_ip as u128 * 0x1_0000 + self.src_port as u128;
        let dst: u128 = self.dst_ip as u128 * 0x1_0000 + self.dst_port as u128;
        src * 0x1_0000_0000_0000 + dst
    }
}

/// Two quads with the same key are the same quad.
pub proof fn lemma_key_is_injective(a: Quad, b: Quad)
    requires
        a.key() == b.key(),
    ensures
        a == b,
{
}

} // verus!
