//! Verified core of a binding to Linux `AF_PACKET` (raw) sockets.
//!
//! Packet sockets receive and send raw packets at the device driver
//! (OSI layer 2) level. The system calls themselves are made by the
//! caller; this crate decides what each call is handed and what its
//! result means:
//! - `socket`: Linux packet sockets: their descriptor, binding,
//!   promiscuous mode and draining;
//! - `interface`: interface names and indices;
//! - `filter`: classic BPF programs;
//! - `bpf`: the BPF devices that stand in for packet sockets on macOS;
//! - `error`: the results of system calls.
//!
//! The library itself names no item of a single target, and builds on
//! Linux and macOS alike.

use vstd::prelude::*;

pub mod bpf;
pub mod error;
pub mod filter;
pub mod interface;
pub mod socket;

pub use error::{byte_count, check_status, PacketError};
pub use filter::{sock_filter, BpfProgram, Filter, FilterProgram};
pub use socket::RawPacketStream;
