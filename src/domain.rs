//! Root-domain handling shared by the adapters.
use crate::error::DynIpError;
use crate::text::{ends_with, has_suffix};
use vstd::prelude::*;
use vstd::string::*;

verus! {

/// Whether a text parses as a domain name under the public suffix list.
pub uninterp spec fn is_domain_name(s: Seq<char>) -> bool;

/// Relies on addr::parse_domain_name: `Ok` exactly when the input parses as
/// a domain name; the error's rendering otherwise.
#[verifier::external_body]
fn parse_domain_name(s: &str) -> (r: Result<(), String>)
    ensures
        r is Ok <==> is_domain_name(s@),
{
    match addr::parse_domain_name(s) {
        Ok(_) => Ok(()),
        Err(e) => Err(e.to_string()),
    }
}

/// Checks that `domain` parses as a domain name and keeps it as given.
pub fn checked_domain(domain: String) -> (r: Result<String, DynIpError>)
    ensures
        r is Ok <==> is_domain_name(domain@),
        r matches Ok(d) ==> d == domain,
        r is Err ==> r matches Err(DynIpError::DomainParse(_)),
{
    match parse_domain_name(domain.as_str()) {
        Ok(()) => Ok(domain),
        Err(e) => Err(DynIpError::DomainParse(e)),
    }
}

/// The absolute (trailing-dot) form of a domain name.
pub open spec fn absolute_form(d: Seq<char>) -> Seq<char> {
    if has_suffix(d, seq!['.']) {
        d
    } else {
        d.push('.')
    }
}

/// Puts `domain` in absolute form and checks that it is a domain name.
pub fn absolute_domain(domain: String) -> (r: Result<String, DynIpError>)
    ensures
        r is Ok <==> is_domain_name(absolute_form(domain@)),
        r matches Ok(d) ==> d@ == absolute_form(domain@),
        r is Err ==> r matches Err(DynIpError::DomainParse(_)),
{
    proof {
        reveal_strlit(".");
        assert("."@ =~= seq!['.']);
    }
    let ghost given = domain@;
    let full = if !ends_with(domain.as_str(), ".") {
        let d = domain.concat(".");
        assert(d@ =~= absolute_form(given));
        d
    } else {
        domain
    };
    match parse_domain_name(full.as_str()) {
        Ok(()) => Ok(full),
        Err(e) => Err(DynIpError::DomainParse(e)),
    }
}

} // verus!
