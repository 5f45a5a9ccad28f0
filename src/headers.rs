use vstd::prelude::*;

use crate::accessor::ptr_at;

verus! {

/// Length in bytes of the Ethernet header.
pub open spec fn eth_hdr_len() -> int {
    14
}

/// Length in bytes of the IPv4 header without options.
pub open spec fn ipv4_hdr_len() -> int {
    20
}

/// The EtherType that tags an IPv4 payload.
pub open spec fn ether_type_ipv4() -> int {
    0x0800
}

/// The IPv4 protocol number of ICMP.
pub open spec fn ip_proto_icmp() -> int {
    1
}

/// The EtherType carried by a frame: bytes 12 and 13, in network byte order.
pub open spec fn ether_type_of(p: Seq<u8>) -> int
    recommends
        p.len() >= eth_hdr_len(),
{
    p[12] as int * 256 + p[13] as int
}

/// The protocol field of the IPv4 header that follows the Ethernet header.
pub open spec fn ip_proto_of(p: Seq<u8>) -> u8
    recommends
        p.len() >= eth_hdr_len() + ipv4_hdr_len(),
{
    p[eth_hdr_len() + 9]
}

/// Relies on network_types' `EthHdr::LEN`: the size of the packed Ethernet
/// header (two 6-byte addresses and a 2-byte EtherType), 14.
#[verifier::external_body]
fn eth_hdr_size() -> (r: usize)
    ensures
        r == eth_hdr_len(),
{
    network_types::eth::EthHdr::LEN
}

/// Relies on network_types' `Ipv4Hdr::LEN`: the size of the IPv4 header
/// struct, 20.
#[verifier::external_body]
fn ipv4_hdr_size() -> (r: usize)
    ensures
        r == ipv4_hdr_len(),
{
    network_types::ip::Ipv4Hdr::LEN
}

/// Relies on network_types' `EtherType::Ipv4`, whose discriminant is 0x0800
/// in network byte order; `u16::from_be` turns it into the number.
#[verifier::external_body]
fn ipv4_ether_type() -> (r: u16)
    ensures
        r == ether_type_ipv4(),
{
    u16::from_be(network_types::eth::EtherType::Ipv4 as u16)
}

/// Relies on network_types' `IpProto::Icmp`, whose discriminant is 1.
#[verifier::external_body]
fn icmp_proto() -> (r: u8)
    ensures
        r == ip_proto_icmp(),
{
    network_types::ip::IpProto::Icmp as u8
}

/// The fields of the Ethernet header that the parse reads.
#[derive(Clone, Copy, Debug, PartialEq, Eq, Structural)]
pub struct EthHeader {
    /// The EtherType, as a number.
    pub ether_type: u16,
}

/// The fields of the IPv4 header that the decision reads.
#[derive(Clone, Copy, Debug, PartialEq, Eq, Structural)]
pub struct Ipv4Header {
    /// The transport-protocol number.
    pub proto: u8,
}

impl EthHeader {
    /// Whether the header announces an IPv4 payload.
    pub open spec fn spec_is_ipv4(&self) -> bool {
        self.ether_type == ether_type_ipv4()
    }

    /// Decodes an Ethernet header from exactly its bytes.
    pub fn from_bytes(h: &[u8]) -> (r: EthHeader)
        requires
            h@.len() == eth_hdr_len(),
        ensures
            r.ether_type == ether_type_of(h@),
    {
        EthHeader { ether_type: (h[12] as u16) * 256 + h[13] as u16 }
    }

    /// Whether the header announces an IPv4 payload.
    pub fn is_ipv4(&self) -> (r: bool)
        ensures
            r == self.spec_is_ipv4(),
    {
        self.ether_type == ipv4_ether_type()
    }
}

impl Ipv4Header {
    /// Whether the transport protocol is ICMP.
    pub open spec fn spec_is_icmp(&self) -> bool {
        self.proto == ip_proto_icmp()
    }

    /// Decodes an IPv4 header from exactly its bytes.
    pub fn from_bytes(h: &[u8]) -> (r: Ipv4Header)
        requires
            h@.len() == ipv4_hdr_len(),
        ensures
            r.proto == h@[9],
    {
        Ipv4Header { proto: h[9] }
    }

    /// Whether the transport protocol is ICMP.
    pub fn is_icmp(&self) -> (r: bool)
        ensures
            r == self.spec_is_icmp(),
    {
        self.proto == icmp_proto()
    }
}

/// What the parse of a buffer found.
#[derive(Clone, Copy, Debug, PartialEq, Eq, Structural)]
pub enum Parsed {
    /// The frame carries IPv4; its header.
    Ipv4(Ipv4Header),
    /// The frame carries something other than IPv4: nothing more is parsed.
    NotApplicable,
}

/// The parse of a buffer: `Err` with the pass code where a header the tag
/// asks for runs past the end of the buffer.
pub open spec fn parse_spec(p: Seq<u8>) -> Result<Parsed, i64> {
    if p.len() < eth_hdr_len() {
        Err(0)
    } else if ether_type_of(p) != ether_type_ipv4() {
        Ok(Parsed::NotApplicable)
    } else if p.len() < eth_hdr_len() + ipv4_hdr_len() {
        Err(0)
    } else {
        Ok(Parsed::Ipv4(Ipv4Header { proto: ip_proto_of(p) }))
    }
}

/// Parses the Ethernet header at offset 0 and, only where its tag says IPv4,
/// the IPv4 header right after it.
pub fn parse_headers(buf: &[u8]) -> (r: Result<Parsed, i64>)
    ensures
        r == parse_spec(buf@),
{
    let eth_len = eth_hdr_size();
    let eth_bytes = ptr_at(buf, 0, eth_len)?;
    let eth = EthHeader::from_bytes(eth_bytes);
    if !eth.is_ipv4() {
        return Ok(Parsed::NotApplicable);
    }
    let ip_bytes = ptr_at(buf, eth_len, ipv4_hdr_size())?;
    Ok(Parsed::Ipv4(Ipv4Header::from_bytes(ip_bytes)))
}

} // verus!
