//! Client network stack for a small LED-panel display device.
//!
//! The device has no operating system and no native TCP/IP stack: a hardware
//! offload chip carries TCP and UDP, an embedded TLS engine carries the record
//! protocol, and this library carries everything that can be decided from
//! plain bytes and states: the socket transport state machine, the network
//! time parser that seeds certificate validation, the compiled-in trust
//! store, the TLS session lifecycle, a complete WebSocket client (opening
//! handshake and frame codec), and the composition that strings the layers
//! together. The unverified shell around it owns the hardware and the
//! engine, performs the actions these state machines return, and feeds
//! every outcome back in as plain values.

pub mod base64;
pub mod client;
pub mod frame;
pub mod handshake;
pub mod ntp;
pub mod session;
pub mod text;
pub mod tls;
pub mod transport;
pub mod trust;
