//! The endpoint specification: the three-way choice between the loopback
//! default, the public wildcard, and a caller-supplied address, with
//! deterministic port back-filling at resolution time.

use vstd::prelude::*;

use crate::address::AddressParseError;
use crate::address::AddressView;
use crate::address::ContextualNetAddress;
use crate::address::IpAddress;
use crate::address::parsed_addr;
use crate::address::spec_loopback_host;
use crate::address::spec_wildcard_host;
use crate::encoding::WrpcEncoding;
use crate::network::NetworkType;
use crate::network::default_port;
use crate::network::spec_default_port;

verus! {

/// How to obtain a concrete listen/connect address: the loopback host on
/// the conventional port, the wildcard host on the conventional port, or a
/// caller-supplied address that may still be missing its port.
#[derive(Debug)]
pub enum WrpcNetAddress {
    Default,
    Public,
    Custom(ContextualNetAddress),
}

/// The mathematical content of a [`WrpcNetAddress`].
pub enum EndpointView {
    Default,
    Public,
    Custom(AddressView),
}

impl View for WrpcNetAddress {
    type V = EndpointView;

    open spec fn view(&self) -> EndpointView {
        match self {
            WrpcNetAddress::Default => EndpointView::Default,
            WrpcNetAddress::Public => EndpointView::Public,
            WrpcNetAddress::Custom(a) => EndpointView::Custom(a@),
        }
    }
}

/// What resolving a specification against a network type and an encoding
/// yields.  An explicit port on a custom address always wins; the default
/// port is strictly a fallback for unspecified ports.
pub open spec fn spec_resolve(
    spec: EndpointView,
    network: NetworkType,
    encoding: WrpcEncoding,
) -> AddressView {
    match spec {
        EndpointView::Default => (AddressView {
            ip: spec_loopback_host(),
            port: Some(spec_default_port(network, encoding)),
        }),
        EndpointView::Public => (AddressView {
            ip: spec_wildcard_host(),
            port: Some(spec_default_port(network, encoding)),
        }),
        EndpointView::Custom(a) => match a.port {
            Some(_) => a,
            None => (AddressView {
                ip: a.ip,
                port: Some(spec_default_port(network, encoding)),
            }),
        },
    }
}

/// What parsing a specification string yields: the exact keyword `default`,
/// the exact keyword `public`, or whatever the address parser makes of the
/// full string.  No trimming, case-folding or other normalization.
pub open spec fn spec_parse(text: Seq<char>) -> Option<EndpointView> {
    if text == "default"@ {
        Some(EndpointView::Default)
    } else if text == "public"@ {
        Some(EndpointView::Public)
    } else {
        match parsed_addr(text) {
            Some(a) => Some(EndpointView::Custom(a)),
            None => None,
        }
    }
}

/// Exact, case-sensitive string equality.
fn str_eq(a: &str, b: &str) -> (r: bool)
    ensures
        r == (a@ == b@),
{
    a.to_owned() == b.to_owned()
}

impl WrpcNetAddress {
    /// Parses a specification string: `default` and `public` select the
    /// keyword forms, anything else is handed whole to the address parser;
    /// its failure is the one error of this library.
    pub fn parse(text: &str) -> (r: Result<WrpcNetAddress, AddressParseError>)
        ensures
            match r {
                Ok(spec) => spec_parse(text@) == Some(spec@),
                Err(_) => spec_parse(text@) is None,
            },
    {
        if str_eq(text, "default") {
            Ok(WrpcNetAddress::Default)
        } else if str_eq(text, "public") {
            Ok(WrpcNetAddress::Public)
        } else {
            match ContextualNetAddress::parse(text) {
                Ok(a) => Ok(WrpcNetAddress::Custom(a)),
                Err(e) => Err(e),
            }
        }
    }

    /// Resolves this specification against a network type and an encoding.
    /// Total: every well-formed specification yields an address.  The
    /// receiver is never mutated; the default port is re-derived from the
    /// arguments on every call.
    pub fn to_address(
        &self,
        network_type: &NetworkType,
        encoding: &WrpcEncoding,
    ) -> (r: ContextualNetAddress)
        ensures
            r@ == spec_resolve(self@, *network_type, *encoding),
    {
        match self {
            WrpcNetAddress::Default => {
                let port = default_port(network_type, encoding);
                ContextualNetAddress::new(IpAddress::loopback(), Some(port))
            }
            WrpcNetAddress::Public => {
                let port = default_port(network_type, encoding);
                ContextualNetAddress::new(IpAddress::wildcard(), Some(port))
            }
            WrpcNetAddress::Custom(address) => {
                if address.port_not_specified() {
                    let port = default_port(network_type, encoding);
                    address.with_port(port)
                } else {
                    address.clone()
                }
            }
        }
    }
}

impl Clone for WrpcNetAddress {
    fn clone(&self) -> (r: Self)
        ensures
            r == *self,
    {
        match self {
            WrpcNetAddress::Default => WrpcNetAddress::Default,
            WrpcNetAddress::Public => WrpcNetAddress::Public,
            WrpcNetAddress::Custom(a) => WrpcNetAddress::Custom(a.clone()),
        }
    }
}

impl PartialEq for WrpcNetAddress {
    fn eq(&self, other: &WrpcNetAddress) -> (r: bool) {
        match (self, other) {
            (WrpcNetAddress::Default, WrpcNetAddress::Default) => true,
            (WrpcNetAddress::Public, WrpcNetAddress::Public) => true,
            (WrpcNetAddress::Custom(a), WrpcNetAddress::Custom(b)) => a == b,
            _ => false,
        }
    }
}

impl vstd::std_specs::cmp::PartialEqSpecImpl for WrpcNetAddress {
    open spec fn obeys_eq_spec() -> bool {
        true
    }

    open spec fn eq_spec(&self, other: &WrpcNetAddress) -> bool {
        self@ == other@
    }
}

impl core::str::FromStr for WrpcNetAddress {
    type Err = AddressParseError;

    fn from_str(s: &str) -> Result<WrpcNetAddress, AddressParseError> {
        WrpcNetAddress::parse(s)
    }
}

/// Law: resolving `Default` yields the loopback host on the environment's
/// default port, for every network type and encoding.
pub proof fn lemma_resolve_default(network: NetworkType, encoding: WrpcEncoding)
    ensures
        spec_resolve(EndpointView::Default, network, encoding) == (AddressView {
            ip: spec_loopback_host(),
            port: Some(spec_default_port(network, encoding)),
        }),
{
}

/// Law: resolving `Public` yields the wildcard host on the environment's
/// default port, for every network type and encoding.
pub proof fn lemma_resolve_public(network: NetworkType, encoding: WrpcEncoding)
    ensures
        spec_resolve(EndpointView::Public, network, encoding) == (AddressView {
            ip: spec_wildcard_host(),
            port: Some(spec_default_port(network, encoding)),
        }),
{
}

/// Law: a custom address that carries an explicit port resolves to exactly
/// itself, whatever the network type and encoding.
pub proof fn lemma_resolve_custom_with_port(
    a: AddressView,
    network: NetworkType,
    encoding: WrpcEncoding,
)
    requires
        a.port is Some,
    ensures
        spec_resolve(EndpointView::Custom(a), network, encoding) == a,
{
}

/// Law: a custom address without an explicit port resolves to its own host
/// with the environment's default port back-filled.
pub proof fn lemma_resolve_custom_without_port(
    a: AddressView,
    network: NetworkType,
    encoding: WrpcEncoding,
)
    requires
        a.port is None,
    ensures
        spec_resolve(EndpointView::Custom(a), network, encoding) == (AddressView {
            ip: a.ip,
            port: Some(spec_default_port(network, encoding)),
        }),
{
}

/// Law: parsing is a left inverse for the two keyword forms, and for them
/// alone among the keyword-shaped inputs: the exact lower-case tokens
/// select the keyword variants.
pub proof fn lemma_parse_keywords()
    ensures
        spec_parse("default"@) == Some(EndpointView::Default),
        spec_parse("public"@) == Some(EndpointView::Public),
{
    reveal_strlit("default");
    reveal_strlit("public");
    assert("default"@.len() == 7);
    assert("public"@.len() == 6);
}

} // verus!
