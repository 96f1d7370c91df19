//! Judging one attempt to transmit a packet.
//!
//! An attempt is three operations on a datagram socket, in this order: open
//! the socket on an address and port that the operating system picks, allow
//! it to send to broadcast addresses, send the packet once. The caller
//! performs each operation and passes its answer to the function of that
//! step, which says whether the attempt goes on. No step asks for a retry.

use vstd::prelude::*;

verus! {

/// The UDP port that magic packets are sent to.
pub const WOL_PORT: u16 = 9;

/// Where a packet is sent: an IPv4 address and a UDP port.
#[derive(Debug, Clone, Copy, PartialEq, Eq)]
pub struct Destination {
    /// The four bytes of the IPv4 address, first byte first.
    pub addr: [u8; 4],
    /// The UDP port.
    pub port: u16,
}

/// Why an attempt to transmit failed. `E` is the cause that the operating
/// system gave; it is carried along and never looked into.
#[derive(Debug, PartialEq, Eq)]
pub enum TransmitError<E> {
    /// The socket could not be opened or bound.
    SocketSetup(E),
    /// The socket was not allowed to send to broadcast addresses.
    BroadcastPermission(E),
    /// The transport took `sent` bytes where the packet has `expected`.
    ShortSend { expected: usize, sent: usize },
    /// The send itself failed.
    Transport(E),
}

/// What an attempt has come to once the socket was to be opened.
pub open spec fn socket_opened_spec<S, E>(opened: Result<S, E>) -> Result<S, TransmitError<E>> {
    match opened {
        Ok(socket) => Ok(socket),
        Err(cause) => Err(TransmitError::SocketSetup(cause)),
    }
}

/// What an attempt has come to once broadcasting was to be allowed.
pub open spec fn broadcast_enabled_spec<E>(enabled: Result<(), E>) -> Result<(), TransmitError<E>> {
    match enabled {
        Ok(()) => Ok(()),
        Err(cause) => Err(TransmitError::BroadcastPermission(cause)),
    }
}

/// How an attempt ends once a packet of `packet_len` bytes was to be sent:
/// well, if and only if the transport took exactly `packet_len` bytes.
pub open spec fn packet_sent_spec<E>(packet_len: usize, sent: Result<usize, E>) -> Result<
    (),
    TransmitError<E>,
> {
    match sent {
        Ok(count) => if count == packet_len {
            Ok(())
        } else {
            Err(TransmitError::ShortSend { expected: packet_len, sent: count })
        },
        Err(cause) => Err(TransmitError::Transport(cause)),
    }
}

/// First step. Takes the answer to opening the socket: hands the socket on,
/// or ends the attempt with `SocketSetup` and the cause.
pub fn socket_opened<S, E>(opened: Result<S, E>) -> (step: Result<S, TransmitError<E>>)
    ensures
        step == socket_opened_spec(opened),
{
    match opened {
        Ok(socket) => Ok(socket),
        Err(cause) => Err(TransmitError::SocketSetup(cause)),
    }
}

/// Second step. Takes the answer to allowing broadcasts on the socket: lets
/// the attempt go on, or ends it with `BroadcastPermission` and the cause.
pub fn broadcast_enabled<E>(enabled: Result<(), E>) -> (step: Result<(), TransmitError<E>>)
    ensures
        step == broadcast_enabled_spec(enabled),
{
    match enabled {
        Ok(()) => Ok(()),
        Err(cause) => Err(TransmitError::BroadcastPermission(cause)),
    }
}

/// Last step. Takes the answer to the one send of a packet of `packet_len`
/// bytes. The attempt succeeded only if the transport took every byte: a
/// count other than `packet_len` is `ShortSend`, a failed send is `Transport`
/// with the cause.
pub fn packet_sent<E>(packet_len: usize, sent: Result<usize, E>) -> (end: Result<
    (),
    TransmitError<E>,
>)
    ensures
        end == packet_sent_spec(packet_len, sent),
        end is Ok <==> sent == Ok::<usize, E>(packet_len),
        sent matches Ok(count) && count < packet_len ==> end is Err,
{
    match sent {
        Ok(count) => if count == packet_len {
            Ok(())
        } else {
            Err(TransmitError::ShortSend { expected: packet_len, sent: count })
        },
        Err(cause) => Err(TransmitError::Transport(cause)),
    }
}

} // verus!
