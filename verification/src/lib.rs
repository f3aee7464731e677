//! Host-side driver logic for a wearable fitness band and the local relay
//! that republishes its telemetry.
//!
//! The crate holds what can be decided without touching a radio or a
//! socket: the byte-level codecs of the band's records and the checksum of
//! the user record, the payloads of the control channel, the connection
//! and its authentication handshake as a state machine, the wire protocol
//! of the relay, and the slot through which the relay's clients see the
//! latest message. The program around it owns the transport and the
//! sockets, performs what the state machines ask for, and hands back what
//! happened.
//!
//! Every function is verified against its contract. The contracts speak of
//! bytes as sequences and of records as plain values; `laws` states what
//! holds of the codecs as a whole. What is taken on trust from other crates
//! and from std is little, and each piece says what it relies on: the CRC-8
//! of the `crc` crate, the calendar of `chrono`, the readers of `byteorder`,
//! and from std the lenient UTF-8 decoding and `String::push`.

pub mod appraiser;
pub mod bio;
pub mod command;
pub mod devices;
pub mod error;
pub mod icons;
pub mod ipc;
pub mod laws;
pub mod orchestrator;
pub mod wire;
