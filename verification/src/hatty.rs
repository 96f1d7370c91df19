//! A wake-up target and the packet that wakes it.

use crate::packet::{
    is_magic_packet, lemma_shape_is_magic_packet, magic_packet, repeated, sync_header, HEADER_BYTE,
    HEADER_SIZE, MAC_PER_MAGIC, PACKET_SIZE,
};
use crate::transmit::{packet_sent_spec, Destination, WOL_PORT};
use vstd::prelude::*;
use vstd::std_specs::convert::FromSpecImpl;

verus! {

/// What the user asks for: the interface to wake and the address to reach
/// it at.
#[derive(Debug, Clone, Copy, PartialEq, Eq)]
pub struct Opt {
    /// The hardware address of the interface to wake.
    pub mac: [u8; 6],
    /// The IPv4 address to send to, usually a broadcast address.
    pub to: [u8; 4],
}

/// One machine to wake: its hardware address and where the packet goes.
#[derive(Debug, Clone, Copy, PartialEq, Eq)]
pub struct Hatty {
    /// The hardware address of the interface to wake.
    pub mac: [u8; 6],
    /// Where the magic packet is sent.
    pub dest: Destination,
}

impl FromSpecImpl<Opt> for Hatty {
    open spec fn obeys_from_spec() -> bool {
        true
    }

    open spec fn from_spec(o: Opt) -> Hatty {
        Hatty { mac: o.mac, dest: Destination { addr: o.to, port: WOL_PORT } }
    }
}

impl From<Opt> for Hatty {
    /// The target that `o` asks for, reached on the Wake-on-LAN port.
    fn from(o: Opt) -> (hatty: Hatty)
        ensures
            hatty.mac == o.mac,
            hatty.dest.addr == o.to,
            hatty.dest.port == WOL_PORT,
    {
        Hatty { mac: o.mac, dest: Destination { addr: o.to, port: WOL_PORT } }
    }
}

impl Hatty {
    /// Builds the magic packet for this target: the synchronisation header,
    /// then the hardware address sixteen times.
    pub fn build_magic_packet(&self) -> (packet: Vec<u8>)
        ensures
            packet@ == magic_packet(self.mac@),
            packet.len() == PACKET_SIZE,
            is_magic_packet(packet@, self.mac@),
    {
        let mut packet: Vec<u8> = Vec::with_capacity(PACKET_SIZE);
        let mut filled: usize = 0;
        while filled < HEADER_SIZE
            invariant
                filled <= HEADER_SIZE,
                packet@ == Seq::new(filled as nat, |i: int| HEADER_BYTE),
            decreases HEADER_SIZE - filled,
        {
            packet.push(HEADER_BYTE);
            filled += 1;
        }
        let mut copies: usize = 0;
        while copies < MAC_PER_MAGIC
            invariant
                copies <= MAC_PER_MAGIC,
                packet@ == sync_header() + repeated(self.mac@, copies as nat),
            decreases MAC_PER_MAGIC - copies,
        {
            packet.extend_from_slice(self.mac.as_slice());
            copies += 1;
        }
        proof {
            lemma_shape_is_magic_packet(packet@, self.mac@);
        }
        packet
    }
}

/// Building is deterministic: whatever two calls of `build_magic_packet`
/// return for targets with the same hardware address is the same packet,
/// byte for byte.
pub proof fn lemma_build_is_deterministic(a: Hatty, b: Hatty, first: Vec<u8>, second: Vec<u8>)
    requires
        a.mac == b.mac,
        call_ensures(Hatty::build_magic_packet, (&a,), first),
        call_ensures(Hatty::build_magic_packet, (&b,), second),
    ensures
        first@ == second@,
{
}

/// The transport has taken a built packet whole exactly when it reports
/// 102 bytes: only then does the last step of an attempt to transmit the
/// packet end well.
pub proof fn lemma_built_packet_sent_whole<E>(hatty: Hatty, packet: Vec<u8>, count: usize)
    requires
        call_ensures(Hatty::build_magic_packet, (&hatty,), packet),
    ensures
        packet_sent_spec::<E>(packet.len(), Ok(count)) is Ok <==> count == PACKET_SIZE,
{
}

} // verus!
