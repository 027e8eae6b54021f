//! The Route53 adapter: change requests with root-domain qualification,
//! decided from plain values, and cursor-driven pagination that leaves the
//! zone's apex record out. The caller talks to the service and hands each
//! answer back.
use crate::cloudflare::listed_display;
use crate::domain::{absolute_domain, absolute_form, is_domain_name};
use crate::error::DynIpError;
use crate::provider::{any_answers_to, concat_pages, find_record, is_first_answer, ChangeAction};
use crate::record::{
    clone_opt, display_records, display_records_view, opt_view, records_view, DisplayRecord,
    Record, RecordView,
};
use crate::text::{ends_with, has_suffix, str_eq};
use vstd::prelude::*;
use vstd::string::*;

verus! {

/// A resource record set of a Route53 listing, as plain values.
#[derive(Debug, Clone)]
pub struct RecordSet {
    pub name: String,
    pub record_type: String,
    pub values: Vec<String>,
    pub ttl: Option<i64>,
}

/// The record a record set stands for: its first value, a ttl of 60 when
/// none is given; Route53 identifies a record set by its name.
pub open spec fn record_set_view(s: RecordSet) -> RecordView {
    RecordView {
        domain: s.name@,
        record_type: s.record_type@,
        ip: if s.values@.len() > 0 {
            s.values@[0]@
        } else {
            seq![]
        },
        ttl: match s.ttl {
            Some(t) => t,
            None => 60,
        },
        source_id: Some(s.name@),
    }
}

/// The records of a page, in page order, without the apex record `root`.
pub open spec fn kept_view(sets: Seq<RecordSet>, root: Seq<char>) -> Seq<RecordView>
    decreases sets.len(),
{
    if sets.len() == 0 {
        seq![]
    } else if sets.last().name@ != root {
        kept_view(sets.drop_last(), root).push(record_set_view(sets.last()))
    } else {
        kept_view(sets.drop_last(), root)
    }
}

/// A domain qualified under the root: kept when it already ends with the
/// root, else the root is appended after a dot.
pub open spec fn qualified(domain: Seq<char>, root: Seq<char>) -> Seq<char> {
    if has_suffix(domain, root) {
        domain
    } else {
        domain + "."@ + root
    }
}

pub open spec fn qualified_view(r: RecordView, root: Seq<char>) -> RecordView {
    RecordView { domain: qualified(r.domain, root), ..r }
}

impl RecordSet {
    /// The record this record set stands for.
    pub fn to_record(&self) -> (r: Record)
        ensures
            r@ == record_set_view(*self),
    {
        let ip = if self.values.len() > 0 {
            self.values[0].clone()
        } else {
            String::new()
        };
        let ttl: i64 = match self.ttl {
            Some(t) => t,
            None => 60,
        };
        Record {
            domain: self.name.clone(),
            record_type: self.record_type.clone(),
            ip,
            ttl,
            source_id: Some(self.name.clone()),
        }
    }
}

/// The Route53 adapter's configuration: hosted zone and the managed root
/// domain in absolute form.
#[derive(Debug, Clone)]
pub struct Route53 {
    pub hosted_zone_id: String,
    pub domain_name: String,
}

/// A single-change batch for a hosted zone.
#[derive(Debug, Clone)]
pub struct ChangeRequest {
    pub hosted_zone_id: String,
    pub action: ChangeAction,
    pub record: Record,
}

/// A request for one page of a hosted zone's record sets.
#[derive(Debug, Clone)]
pub struct ListRequest {
    pub hosted_zone_id: String,
    pub start_record_identifier: Option<String>,
}

/// The state of a listing in progress: the cursor to continue from, the
/// records gathered so far, and whether the service returned no cursor.
pub struct Route53Listing {
    pub next_page: Option<String>,
    pub records: Vec<Record>,
    pub finished: bool,
    /// The kept records of each page received, in order.
    pub pages: Ghost<Seq<Seq<RecordView>>>,
}

impl Route53Listing {
    pub open spec fn wf(&self) -> bool {
        &&& records_view(self.records@) == concat_pages(self.pages@)
        &&& self.finished ==> self.pages@.len() > 0
        &&& self.pages@.len() == 0 ==> self.next_page is None
        &&& !self.finished && self.pages@.len() > 0 ==> self.next_page is Some
    }

    /// The next page to ask for, or `None` once the listing is complete.
    pub fn next_request(&self, zone: &Route53) -> (r: Option<ListRequest>)
        ensures
            self.finished ==> r is None,
            !self.finished ==> (r matches Some(q) && q.hosted_zone_id@ == zone.hosted_zone_id@
                && opt_view(q.start_record_identifier) == opt_view(self.next_page)),
    {
        if self.finished {
            None
        } else {
            Some(
                ListRequest {
                    hosted_zone_id: zone.hosted_zone_id.clone(),
                    start_record_identifier: clone_opt(&self.next_page),
                },
            )
        }
    }

    /// Takes one page and the cursor that came with it: keeps every record
    /// set but the apex after those gathered so far; no cursor ends the
    /// listing.
    pub fn receive_page(&mut self, zone: &Route53, sets: &Vec<RecordSet>, next: Option<String>)
        requires
            old(self).wf(),
            !old(self).finished,
        ensures
            final(self).wf(),
            final(self).pages@ == old(self).pages@.push(kept_view(sets@, zone.domain_name@)),
            final(self).finished == (next is None),
            opt_view(final(self).next_page) == opt_view(next),
    {
        let ghost root = zone.domain_name@;
        let ghost before = records_view(self.records@);
        let mut fresh: Vec<Record> = Vec::new();
        let mut i: usize = 0;
        while i < sets.len()
            invariant
                i <= sets@.len(),
                root == zone.domain_name@,
                records_view(fresh@) =~= kept_view(sets@.subrange(0, i as int), root),
            decreases sets@.len() - i,
        {
            let s = &sets[i];
            proof {
                assert(sets@.subrange(0, i + 1).drop_last() =~= sets@.subrange(0, i as int));
            }
            if !str_eq(s.name.as_str(), zone.domain_name.as_str()) {
                fresh.push(s.to_record());
            }
            i = i + 1;
            assert(records_view(fresh@) =~= kept_view(sets@.subrange(0, i as int), root));
        }
        assert(sets@.subrange(0, sets@.len() as int) =~= sets@);
        let ghost page_view = records_view(fresh@);
        self.records.append(&mut fresh);
        self.pages = Ghost(self.pages@.push(page_view));
        proof {
            assert(self.pages@.drop_last() =~= old(self).pages@);
            assert(records_view(self.records@) =~= before + page_view);
        }
        self.finished = next.is_none();
        self.next_page = next;
    }

    /// The complete listing; meaningful once `finished` holds.
    pub fn into_records(self) -> (r: Vec<Record>)
        ensures
            r == self.records,
    {
        self.records
    }
}

impl Route53 {
    /// Configures the adapter; the root domain is put in absolute form and
    /// must parse as a domain name.
    pub fn new(hosted_zone_id: String, domain_name: String) -> (r: Result<Route53, DynIpError>)
        ensures
            r is Ok <==> is_domain_name(absolute_form(domain_name@)),
            r matches Ok(z) ==> z.hosted_zone_id == hosted_zone_id && z.domain_name@
                == absolute_form(domain_name@),
            r is Err ==> r matches Err(DynIpError::DomainParse(_)),
    {
        let domain_name = absolute_domain(domain_name)?;
        Ok(Route53 { hosted_zone_id, domain_name })
    }

    /// The managed root domain.
    pub fn domain_name(&self) -> (r: &str)
        ensures
            r@ == self.domain_name@,
    {
        self.domain_name.as_str()
    }

    /// The record with its domain qualified under the root domain.
    pub fn qualify(&self, record: Record) -> (r: Record)
        ensures
            r@ == qualified_view(record@, self.domain_name@),
    {
        if !ends_with(record.domain.as_str(), self.domain_name.as_str()) {
            let domain = record.domain.concat(".").concat(self.domain_name.as_str());
            Record { domain, ..record }
        } else {
            record
        }
    }

    /// The single-change batch that carries out `action` on `record`, with
    /// the domain qualified; a delete needs the native id.
    pub fn update_record(&self, action: ChangeAction, record: Record) -> (r: Result<
        ChangeRequest,
        DynIpError,
    >)
        ensures
            action == ChangeAction::Delete && record.source_id is None ==> r matches Err(
                DynIpError::MissingId,
            ),
            !(action == ChangeAction::Delete && record.source_id is None) ==> (r matches Ok(q)
                && q.hosted_zone_id@ == self.hosted_zone_id@ && q.action == action && q.record@
                == qualified_view(record@, self.domain_name@)),
    {
        if action == ChangeAction::Delete && record.source_id.is_none() {
            return Err(DynIpError::MissingId);
        }
        let record = self.qualify(record);
        Ok(ChangeRequest { hosted_zone_id: self.hosted_zone_id.clone(), action, record })
    }

    /// Starts a listing from the beginning of the zone.
    pub fn list_records(&self) -> (r: Route53Listing)
        ensures
            r.wf(),
            !r.finished,
            r.pages@.len() == 0,
    {
        let r = Route53Listing {
            next_page: None,
            records: Vec::new(),
            finished: false,
            pages: Ghost(Seq::empty()),
        };
        assert(records_view(r.records@) =~= concat_pages(r.pages@));
        r
    }

    /// The display projections of a listing, in listing order.
    pub fn list_display_records(&self, records: &Vec<Record>, salt: &str) -> (r: Vec<DisplayRecord>)
        requires
            forall|i: int| 0 <= i < records@.len() ==> (#[trigger] records@[i]).source_id is Some,
        ensures
            display_records_view(r@) == listed_display(records@, salt@),
    {
        display_records(records, salt)
    }

    /// The delete batch for the first record of a complete listing whose id
    /// under `salt`, or whose domain, is `id_or_domain`.
    pub fn delete(&self, records: &Vec<Record>, salt: &str, id_or_domain: &str) -> (r: Result<
        ChangeRequest,
        DynIpError,
    >)
        requires
            forall|i: int| 0 <= i < records@.len() ==> (#[trigger] records@[i]).source_id is Some,
        ensures
            r is Ok <==> any_answers_to(listed_display(records@, salt@), id_or_domain@),
            r is Err ==> r matches Err(DynIpError::DomainHashNotFound),
            r matches Ok(q) ==> (q.action == ChangeAction::Delete && q.hosted_zone_id@
                == self.hosted_zone_id@ && exists|i: int|
                is_first_answer(listed_display(records@, salt@), id_or_domain@, i) && q.record@
                    == qualified_view(
                    crate::record::undisplay_view(#[trigger] listed_display(records@, salt@)[i]),
                    self.domain_name@,
                )),
    {
        let shown = display_records(records, salt);
        match find_record(&shown, id_or_domain) {
            Some(i) => {
                let target = Record::from_display(&shown[i]);
                let r = self.update_record(ChangeAction::Delete, target);
                proof {
                    let ds = listed_display(records@, salt@);
                    assert(display_records_view(shown@) == ds);
                    assert(ds[i as int] == shown@[i as int]@);
                    assert(is_first_answer(ds, id_or_domain@, i as int));
                }
                r
            },
            None => Err(DynIpError::DomainHashNotFound),
        }
    }
}

} // verus!
