//! The network environments and their conventional default RPC ports.
//!
//! The port table itself lives in the consensus crate; it is reached through
//! trusted wrappers whose contracts restate the table exactly.

use vstd::prelude::*;

use crate::encoding::WrpcEncoding;

verus! {

/// The deployment environment.  Together with a [`WrpcEncoding`] it selects
/// the conventional default RPC port.
#[derive(Clone, Copy, Debug, PartialEq, Eq, Structural)]
pub enum NetworkType {
    Mainnet,
    Testnet,
    Devnet,
    Simnet,
}

/// The conventional RPC port for the borsh encoding on each network.
pub open spec fn spec_default_borsh_rpc_port(network: NetworkType) -> u16 {
    match network {
        NetworkType::Mainnet => 17110u16,
        NetworkType::Testnet => 17210u16,
        NetworkType::Simnet => 17510u16,
        NetworkType::Devnet => 17610u16,
    }
}

/// The conventional RPC port for the JSON encoding on each network.
pub open spec fn spec_default_json_rpc_port(network: NetworkType) -> u16 {
    match network {
        NetworkType::Mainnet => 18110u16,
        NetworkType::Testnet => 18210u16,
        NetworkType::Simnet => 18510u16,
        NetworkType::Devnet => 18610u16,
    }
}

/// The conventional RPC port for a network under a given wire encoding.
pub open spec fn spec_default_port(network: NetworkType, encoding: WrpcEncoding) -> u16 {
    match encoding {
        WrpcEncoding::Borsh => spec_default_borsh_rpc_port(network),
        WrpcEncoding::SerdeJson => spec_default_json_rpc_port(network),
    }
}

/// Relies on `kaspa_consensus_core::network::NetworkType::default_borsh_rpc_port`,
/// whose source returns 17110, 17210, 17510 and 17610 for mainnet, testnet,
/// simnet and devnet respectively.
#[verifier::external_body]
fn fetch_default_borsh_rpc_port(network: &NetworkType) -> (port: u16)
    ensures
        port == spec_default_borsh_rpc_port(*network),
{
    match network {
        NetworkType::Mainnet => kaspa_consensus_core::network::NetworkType::Mainnet,
        NetworkType::Testnet => kaspa_consensus_core::network::NetworkType::Testnet,
        NetworkType::Simnet => kaspa_consensus_core::network::NetworkType::Simnet,
        NetworkType::Devnet => kaspa_consensus_core::network::NetworkType::Devnet,
    }
    .default_borsh_rpc_port()
}

/// Relies on `kaspa_consensus_core::network::NetworkType::default_json_rpc_port`,
/// whose source returns 18110, 18210, 18510 and 18610 for mainnet, testnet,
/// simnet and devnet respectively.
#[verifier::external_body]
fn fetch_default_json_rpc_port(network: &NetworkType) -> (port: u16)
    ensures
        port == spec_default_json_rpc_port(*network),
{
    match network {
        NetworkType::Mainnet => kaspa_consensus_core::network::NetworkType::Mainnet,
        NetworkType::Testnet => kaspa_consensus_core::network::NetworkType::Testnet,
        NetworkType::Simnet => kaspa_consensus_core::network::NetworkType::Simnet,
        NetworkType::Devnet => kaspa_consensus_core::network::NetworkType::Devnet,
    }
    .default_json_rpc_port()
}

impl NetworkType {
    /// The conventional default port for the borsh encoding on this network.
    pub fn default_borsh_rpc_port(&self) -> (port: u16)
        ensures
            port == spec_default_borsh_rpc_port(*self),
    {
        fetch_default_borsh_rpc_port(self)
    }

    /// The conventional default port for the JSON encoding on this network.
    pub fn default_json_rpc_port(&self) -> (port: u16)
        ensures
            port == spec_default_json_rpc_port(*self),
    {
        fetch_default_json_rpc_port(self)
    }
}

/// The default-port lookup of the resolver: re-derived on every resolution
/// from the current network type and encoding, never cached.
pub fn default_port(network: &NetworkType, encoding: &WrpcEncoding) -> (port: u16)
    ensures
        port == spec_default_port(*network, *encoding),
{
    match encoding {
        WrpcEncoding::Borsh => network.default_borsh_rpc_port(),
        WrpcEncoding::SerdeJson => network.default_json_rpc_port(),
    }
}

} // verus!
