//! NAT type detection: the STUN message handling, the address model and the
//! decision procedures of the RFC 3489 style UDP test and of the TCP test,
//! written as step functions that a network driver feeds with what it observed.

pub mod addr;
pub mod client;
pub mod detector;
pub mod error;
pub mod nat_type;
pub mod portcheck;
pub mod stun;
pub mod tcp;
pub mod udp;
pub mod upnp;
