//! The address value model: an IP held in its canonical textual form
//! together with an optional port.
//!
//! Parsing of user-supplied text is delegated to the networking crate's own
//! parsers through trusted wrappers; everything downstream of those calls is
//! verified against their contracts.

use vstd::prelude::*;

verus! {

/// The canonical text of an IP address, as the networking crate's parser
/// renders it, for the strings it accepts; `None` for the strings it
/// rejects.
pub uninterp spec fn parsed_ip(text: Seq<char>) -> Option<Seq<char>>;

/// The canonical IP text and the port of a socket-form `ip:port` string,
/// for the strings the networking crate's socket parser accepts; `None`
/// for the strings it rejects.
pub uninterp spec fn parsed_socket(text: Seq<char>) -> Option<(Seq<char>, u16)>;

/// Relies on `kaspa_utils::networking::IpAddress::from_str`, which accepts
/// exactly the literal IP forms without a port, and on its `Display` for the
/// canonical text.  The error text is the underlying parser's own
/// diagnostic.
#[verifier::external_body]
fn parse_ip_text(text: &str) -> (r: Result<String, String>)
    ensures
        match r {
            Ok(ip) => parsed_ip(text@) == Some(ip@),
            Err(_) => parsed_ip(text@) is None,
        },
{
    match text.parse::<kaspa_utils::networking::IpAddress>() {
        Ok(ip) => Ok(ip.to_string()),
        Err(e) => Err(e.to_string()),
    }
}

/// Relies on `kaspa_utils::networking::NetAddress::from_str`, which accepts
/// exactly the socket forms carrying an explicit port, and on the `Display`
/// of its `ip` field for the canonical host text.
#[verifier::external_body]
fn parse_socket_text(text: &str) -> (r: Option<(String, u16)>)
    ensures
        match r {
            Some(p) => parsed_socket(text@) == Some((p.0@, p.1)),
            None => parsed_socket(text@) is None,
        },
{
    text.parse::<kaspa_utils::networking::NetAddress>().ok().map(|a| (a.ip.to_string(), a.port))
}

/// The single error of this library: the input was neither a keyword nor a
/// syntactically valid address.  It carries the underlying address parser's
/// own diagnostic.
#[derive(Debug)]
pub struct AddressParseError {
    message: String,
}

impl AddressParseError {
    /// The underlying parser's diagnostic text.
    pub fn message(&self) -> &String {
        &self.message
    }
}

impl Clone for AddressParseError {
    fn clone(&self) -> (r: Self)
        ensures
            r == *self,
    {
        AddressParseError { message: self.message.clone() }
    }
}

/// An IP address, held as the canonical text its parser renders.
#[derive(Debug)]
pub struct IpAddress {
    text: String,
}

impl View for IpAddress {
    type V = Seq<char>;

    closed spec fn view(&self) -> Seq<char> {
        self.text@
    }
}

/// The canonical loopback host text.
pub open spec fn spec_loopback_host() -> Seq<char> {
    "127.0.0.1"@
}

/// The canonical wildcard (all-interfaces) host text.
pub open spec fn spec_wildcard_host() -> Seq<char> {
    "0.0.0.0"@
}

impl IpAddress {
    /// Parses a literal IP address (no port) through the networking crate's
    /// own parser; succeeds exactly on the strings that parser accepts.
    pub fn parse(text: &str) -> (r: Result<IpAddress, AddressParseError>)
        ensures
            match r {
                Ok(ip) => parsed_ip(text@) == Some(ip@),
                Err(_) => parsed_ip(text@) is None,
            },
    {
        match parse_ip_text(text) {
            Ok(ip_text) => Ok(IpAddress { text: ip_text }),
            Err(message) => Err(AddressParseError { message }),
        }
    }

    /// The fixed loopback host.
    pub fn loopback() -> (r: IpAddress)
        ensures
            r@ == spec_loopback_host(),
    {
        IpAddress { text: "127.0.0.1".to_owned() }
    }

    /// The fixed wildcard host.
    pub fn wildcard() -> (r: IpAddress)
        ensures
            r@ == spec_wildcard_host(),
    {
        IpAddress { text: "0.0.0.0".to_owned() }
    }

    /// The canonical text of this address.
    pub fn text(&self) -> (r: &String)
        ensures
            r@ == self@,
    {
        &self.text
    }
}

impl core::str::FromStr for IpAddress {
    type Err = AddressParseError;

    fn from_str(s: &str) -> Result<IpAddress, AddressParseError> {
        IpAddress::parse(s)
    }
}

impl Clone for IpAddress {
    fn clone(&self) -> (r: Self)
        ensures
            r == *self,
    {
        IpAddress { text: self.text.clone() }
    }
}

impl PartialEq for IpAddress {
    fn eq(&self, other: &IpAddress) -> (r: bool) {
        self.text == other.text
    }
}

impl vstd::std_specs::cmp::PartialEqSpecImpl for IpAddress {
    open spec fn obeys_eq_spec() -> bool {
        true
    }

    open spec fn eq_spec(&self, other: &IpAddress) -> bool {
        self@ == other@
    }
}

/// The mathematical content of a [`ContextualNetAddress`]: the canonical
/// host text and the optional explicit port.
pub struct AddressView {
    pub ip: Seq<char>,
    pub port: Option<u16>,
}

/// A network address possibly without an explicit port.
#[derive(Debug)]
pub struct ContextualNetAddress {
    ip: IpAddress,
    port: Option<u16>,
}

impl View for ContextualNetAddress {
    type V = AddressView;

    closed spec fn view(&self) -> AddressView {
        AddressView { ip: self.ip@, port: self.port }
    }
}

/// What parsing an address string yields: the socket form wins where it
/// applies, the bare IP form is the fallback, as the networking crate's own
/// contextual parser has it.
pub open spec fn parsed_addr(text: Seq<char>) -> Option<AddressView> {
    match parsed_socket(text) {
        Some(p) => Some(AddressView { ip: p.0, port: Some(p.1) }),
        None => match parsed_ip(text) {
            Some(ip) => Some(AddressView { ip, port: None }),
            None => None,
        },
    }
}

impl ContextualNetAddress {
    /// Builds an address from a host and an optional explicit port.
    pub fn new(ip: IpAddress, port: Option<u16>) -> (r: ContextualNetAddress)
        ensures
            r@ == (AddressView { ip: ip@, port }),
    {
        ContextualNetAddress { ip, port }
    }

    /// Parses an address that may or may not carry an explicit port:
    /// the socket form first, then the bare IP form, as the networking
    /// crate's contextual parser proceeds.
    pub fn parse(text: &str) -> (r: Result<ContextualNetAddress, AddressParseError>)
        ensures
            match r {
                Ok(a) => parsed_addr(text@) == Some(a@),
                Err(_) => parsed_addr(text@) is None,
            },
    {
        match parse_socket_text(text) {
            Some((ip_text, port)) => {
                Ok(ContextualNetAddress { ip: IpAddress { text: ip_text }, port: Some(port) })
            }
            None => match parse_ip_text(text) {
                Ok(ip_text) => {
                    Ok(ContextualNetAddress { ip: IpAddress { text: ip_text }, port: None })
                }
                Err(message) => Err(AddressParseError { message }),
            },
        }
    }

    /// Whether no explicit port was given, so that resolution must
    /// back-fill the environment's default.
    pub fn port_not_specified(&self) -> (r: bool)
        ensures
            r == (self@.port is None),
    {
        self.port.is_none()
    }

    /// A copy of this address carrying the given port; the receiver is left
    /// untouched.
    pub fn with_port(&self, port: u16) -> (r: ContextualNetAddress)
        ensures
            r@ == (AddressView { ip: self@.ip, port: Some(port) }),
    {
        ContextualNetAddress { ip: self.ip.clone(), port: Some(port) }
    }

    /// The host part of this address.
    pub fn ip(&self) -> (r: &IpAddress)
        ensures
            r@ == self@.ip,
    {
        &self.ip
    }

    /// The explicit port, where one was given.
    pub fn port(&self) -> (r: Option<u16>)
        ensures
            r == self@.port,
    {
        self.port
    }
}

impl Clone for ContextualNetAddress {
    fn clone(&self) -> (r: Self)
        ensures
            r == *self,
    {
        ContextualNetAddress { ip: self.ip.clone(), port: self.port }
    }
}

impl PartialEq for ContextualNetAddress {
    fn eq(&self, other: &ContextualNetAddress) -> (r: bool) {
        let ports_match = match (self.port, other.port) {
            (Some(a), Some(b)) => a == b,
            (None, None) => true,
            _ => false,
        };
        ports_match && self.ip == other.ip
    }
}

impl vstd::std_specs::cmp::PartialEqSpecImpl for ContextualNetAddress {
    open spec fn obeys_eq_spec() -> bool {
        true
    }

    open spec fn eq_spec(&self, other: &ContextualNetAddress) -> bool {
        self@ == other@
    }
}

} // verus!
