//! The request-level decisions around the adapters: which record an update
//! rewrites, and which record an add creates.
use crate::cloudflare::listed_display;
use crate::domain::{checked_domain, is_domain_name};
use crate::error::DynIpError;
use crate::record::{display_records, display_view, records_view, rr_type_name, Record, RecordView, RrType};
use crate::text::str_eq;
use vstd::prelude::*;
use vstd::string::*;

verus! {

/// `i` is the first listed record whose opaque id under `salt` is `id`.
pub open spec fn is_first_with_id(records: Seq<Record>, salt: Seq<char>, id: Seq<char>, i: int) -> bool {
    let ds = listed_display(records, salt);
    &&& 0 <= i < ds.len()
    &&& ds[i].id == id
    &&& forall|j: int| 0 <= j < i ==> (#[trigger] ds[j]).id != id
}

/// The record an update stores: the first listed record whose opaque id is
/// `id`, with its address replaced by `ip`. Updates address records by id
/// only, never by domain.
pub fn record_to_update(records: &Vec<Record>, salt: &str, id: &str, ip: String) -> (r: Result<
    Record,
    DynIpError,
>)
    requires
        forall|i: int| 0 <= i < records@.len() ==> (#[trigger] records@[i]).source_id is Some,
    ensures
        r is Ok <==> exists|i: int|
            0 <= i < records@.len() && (#[trigger] listed_display(records@, salt@)[i]).id == id@,
        r is Err ==> r matches Err(DynIpError::DomainHashNotFound),
        r matches Ok(rec) ==> exists|i: int|
            is_first_with_id(records@, salt@, id@, i) && rec@ == (RecordView {
                ip: ip@,
                ..#[trigger] records@[i]@
            }),
{
    let shown = display_records(records, salt);
    let ghost ds = listed_display(records@, salt@);
    proof {
        assert(crate::record::display_records_view(shown@).len() == shown@.len());
        assert(ds.len() == records@.len());
    }
    let mut i: usize = 0;
    while i < shown.len()
        invariant
            i <= shown@.len(),
            shown@.len() == records@.len(),
            forall|k: int| 0 <= k < records@.len() ==> (#[trigger] records@[k]).source_id is Some,
            crate::record::display_records_view(shown@) == ds,
            ds == listed_display(records@, salt@),
            forall|j: int| 0 <= j < i ==> (#[trigger] ds[j]).id != id@,
        decreases shown@.len() - i,
    {
        assert(ds[i as int] == shown@[i as int]@);
        if str_eq(shown[i].id.as_str(), id) {
            let mut rec = Record::from_display(&shown[i]);
            rec.ip = ip;
            proof {
                assert(records_view(records@)[i as int] == records@[i as int]@);
                assert(ds[i as int] == display_view(records@[i as int]@, salt@));
                assert(records@[i as int].source_id is Some);
                assert(is_first_with_id(records@, salt@, id@, i as int));
                assert(rec@ == (RecordView { ip: ip@, ..records@[i as int]@ }));
            }
            return Ok(rec);
        }
        i = i + 1;
    }
    proof {
        assert forall|k: int| 0 <= k < records@.len() implies (#[trigger] listed_display(
            records@,
            salt@,
        )[k]).id != id@ by {
            assert(ds[k] == listed_display(records@, salt@)[k]);
        }
    }
    Err(DynIpError::DomainHashNotFound)
}

/// The record type an add asks for: a known wire name, else an address.
pub open spec fn requested_type(record_type: Option<Seq<char>>) -> RrType {
    match record_type {
        Some(t) => if t == rr_type_name(RrType::Cname) {
            RrType::Cname
        } else {
            RrType::A
        },
        None => RrType::A,
    }
}

/// The record an add creates: the domain must parse; an address record
/// takes `ip`, an alias record takes `host`, and the one needed must be
/// there. New records have ttl 60 and no native id.
pub fn record_to_add(
    domain: String,
    record_type: Option<String>,
    ip: Option<String>,
    host: Option<String>,
) -> (r: Result<Record, DynIpError>)
    ensures
        !is_domain_name(domain@) ==> r matches Err(DynIpError::DomainParse(_)),
        is_domain_name(domain@) ==> ({
            let t = requested_type(crate::record::opt_view(record_type));
            let content = if t == RrType::A {
                ip
            } else {
                host
            };
            match content {
                None => r matches Err(DynIpError::MissingIp),
                Some(c) => r matches Ok(rec) && rec@ == (RecordView {
                    domain: domain@,
                    record_type: rr_type_name(t),
                    ip: c@,
                    ttl: 60,
                    source_id: None,
                }),
            }
        }),
{
    let domain = checked_domain(domain)?;
    let kind = match record_type {
        Some(t) => match RrType::from_str(t.as_str()) {
            Ok(k) => k,
            Err(_) => RrType::A,
        },
        None => RrType::A,
    };
    proof {
        assert(rr_type_name(RrType::A) != rr_type_name(RrType::Cname));
    }
    let content = match kind {
        RrType::A => ip,
        RrType::Cname => host,
    };
    match content {
        None => Err(DynIpError::MissingIp),
        Some(c) => Ok(
            Record {
                domain,
                record_type: String::from_str(kind.as_str()),
                ip: c,
                ttl: 60,
                source_id: None,
            },
        ),
    }
}

} // verus!
