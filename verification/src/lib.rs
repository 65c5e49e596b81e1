//! A duplex byte tunnel carried in ICMP echo packets.
//!
//! The crate holds the parts of the tunnel that can be reasoned about without
//! touching the operating system: the wire codec and its checksum, the
//! endpoint values, the reply correlator, the shutdown state machine, the
//! terminal-mode guard and the decisions of the tunnel's tick loop. Sockets,
//! signals and terminals are driven by the program around it, which hands
//! plain values in and takes plain values back.

pub mod checksum;
pub mod correlator;
pub mod endpoint;
pub mod engine;
pub mod header;
pub mod os_notifier;
pub mod packet;
pub mod pipe;
pub mod poll;
pub mod terminal;
pub mod transport;
pub mod wire;
