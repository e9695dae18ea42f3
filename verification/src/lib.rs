//! Control-plane shim for a packet-tunneling client.
//!
//! The crate manages the lifecycle of a single active tunnel session bound to
//! an operating-system tunnel file descriptor ([`tun`]), and offers a
//! notification bus through which the packet-forwarding engine tells the
//! embedding host about every network socket it opens ([`tun_callbacks`]),
//! so the host can exempt those sockets from tunnel routing.
//!
//! Packet forwarding itself is out of scope: the engine is an external
//! collaborator, reachable only through the [`tun::Engine`] trait.

pub mod tun;
pub mod tun_callbacks;
