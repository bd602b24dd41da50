//! A parsed DNS message, as the reader of the wire hands it over: direction, response code, the
//! authority bit, the questions and the answers.
use vstd::prelude::*;

verus! {

/// Which way a DNS message goes.
#[derive(Debug, Clone, Copy, PartialEq, Eq, Structural)]
pub enum DnsDirection {
    Query,
    Response,
}

/// One question of a message.
#[derive(Debug, Clone, PartialEq, Eq)]
pub struct DnsQuery {
    pub name: String,
    pub qtype: u16,
    pub qclass: u16,
}

/// One answer record of a message.
#[derive(Debug, Clone, PartialEq, Eq)]
pub struct DnsAnswer {
    pub name: String,
    pub rtype: u16,
    pub rclass: u16,
    pub ttl: u32,
    pub rdata: Vec<u8>,
}

/// A parsed DNS message.
#[derive(Debug, Clone, PartialEq, Eq)]
pub struct DnsMessage {
    pub id: u16,
    pub direction: DnsDirection,
    pub rcode: u8,
    /// The authoritative-answer bit: the one answering claims to own the zone.
    pub authoritative: bool,
    pub queries: Vec<DnsQuery>,
    pub answers: Vec<DnsAnswer>,
}

} // verus!
