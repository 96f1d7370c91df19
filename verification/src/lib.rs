//! Wake-on-LAN: the magic packet that wakes a sleeping network interface,
//! and the rules by which one attempt to transmit it is judged.
//!
//! The crate opens no socket. A caller builds the packet here, hands it to a
//! datagram socket of its own, and brings back what the socket answered.

pub mod hatty;
pub mod packet;
pub mod transmit;

pub use hatty::{Hatty, Opt};
pub use packet::{HEADER_BYTE, HEADER_SIZE, MAC_PER_MAGIC, MAC_SIZE, PACKET_SIZE};
pub use transmit::{Destination, TransmitError, WOL_PORT};
