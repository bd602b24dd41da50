//! A TLS record as the reader of the wire hands it over: its content type, version and what its
//! fragment was recognised as.
use vstd::prelude::*;

verus! {

/// The content type of a record.
#[derive(Debug, Clone, Copy, PartialEq, Eq, Structural)]
pub enum TlsContentType {
    ChangeCipherSpec,
    Alert,
    Handshake,
    ApplicationData,
    Other,
}

/// The version a record carries.
#[derive(Debug, Clone, Copy, PartialEq, Eq, Structural)]
pub struct TlsVersion {
    pub major: u8,
    pub minor: u8,
}

/// What the fragment of a record was recognised as.
#[derive(Debug, Clone, PartialEq, Eq)]
pub enum TlsFragment {
    /// The client's greeting, with the name it asks for where it says one.
    ClientHello { sni: Option<String> },
    /// The server's greeting.
    ServerHello,
    /// An alert: its level and description.
    Alert { level: u8, description: u8 },
    /// Anything else.
    Other,
}

/// One TLS record.
#[derive(Debug, Clone, PartialEq, Eq)]
pub struct TlsRecord {
    pub content_type: TlsContentType,
    pub version: TlsVersion,
    pub fragment: TlsFragment,
}

} // verus!
