use vstd::prelude::*;

verus! {

/// The failures of the record layer, classified so that a caller can map
/// each to a response without inspecting messages.
#[derive(Debug, Clone)]
pub enum DynIpError {
    /// A transport or service failure reported by the Route53 API.
    AwsSdk(String),
    /// The managed root domain, or a supplied domain, is not a domain name.
    DomainParse(String),
    /// An update was asked for without an address to store.
    MissingIp,
    /// The record has no provider-native identifier.
    MissingId,
    /// No listed record matches the given id or domain.
    DomainHashNotFound,
    /// A Route53 change could not be assembled from the record.
    Route53BuildError(String),
    /// A transport failure, a non-success status or an undecodable body from
    /// the Cloudflare API, with its diagnostic text.
    Cloudflare(String),
    /// The adapter does not implement the requested change action.
    UnsupportedDNSAction,
}

} // verus!
