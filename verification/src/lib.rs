//! Socket protection for a VPN tunnel on a mobile platform.
//!
//! A tunnel must keep its own outbound sockets out of the virtual interface
//! it creates, or its traffic loops back into itself. Only the platform's VPN
//! service may exempt a socket, so native code asks a handler that the host
//! application installs once at start-up.
//!
//! * [`protector`]: the handler capability and its write-once registry.
//! * [`gate`]: the enabled flag and the `protect_fd` entry point.
//! * [`bridge`]: the call into the host application's Java runtime that a
//!   handler on Android makes.
//!
//! The library keeps no state of its own: the flag and the registry are
//! values that the caller owns, so that every function can say what it does
//! to them.

pub mod bridge;
pub mod gate;
mod jvm;
pub mod protector;
