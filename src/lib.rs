//! Registration of a service with a DNS-SD (multicast DNS service discovery)
//! responder daemon: the wire encoding of a registration request, the
//! interpretation of the daemon's status codes, and the handle that owns one
//! live registration until it is released.

pub mod error;
pub mod wire;
pub mod service;
