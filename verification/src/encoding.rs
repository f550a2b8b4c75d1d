//! The RPC wire encodings; each carries its own conventional default port
//! per network type.

use vstd::prelude::*;

verus! {

/// The serialization format spoken on the RPC wire.  It influences
/// resolution only through the choice of conventional default port.
#[derive(Clone, Copy, Debug, PartialEq, Eq, Structural)]
pub enum WrpcEncoding {
    Borsh,
    SerdeJson,
}

} // verus!
