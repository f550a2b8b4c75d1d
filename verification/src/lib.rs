//! Resolution of human-readable RPC endpoint specifications into concrete
//! listen/connect addresses.
//!
//! A specification is either the keyword `default` (loopback host on the
//! conventional port), the keyword `public` (wildcard host on the
//! conventional port), or a literal address that may or may not carry an
//! explicit port.  Resolution against a network type and a wire encoding
//! back-fills the conventional default port wherever none was given.

pub mod address;
pub mod encoding;
pub mod endpoint;
pub mod network;
