//! The provider-agnostic record model and its display projection.
use crate::id::{opaque_id, record_id};
use crate::text::str_eq;
use vstd::prelude::*;
use vstd::string::*;

verus! {

/// Relies on serde_json::Value: an arbitrary JSON document, carried through.
#[verifier::external_type_specification]
#[verifier::external_body]
pub struct ExJsonValue(serde_json::Value);

/// The record types a provider listing may hold.
#[derive(Debug, Clone, Copy, PartialEq, Eq, Structural)]
pub enum RecordType {
    A,
    Aaaa,
    Cname,
    MX,
    Txt,
}

/// The canonical (upper-case) name of a record type.
pub open spec fn record_type_name(t: RecordType) -> Seq<char> {
    match t {
        RecordType::A => seq!['A'],
        RecordType::Aaaa => seq!['A', 'A', 'A', 'A'],
        RecordType::Cname => seq!['C', 'N', 'A', 'M', 'E'],
        RecordType::MX => seq!['M', 'X'],
        RecordType::Txt => seq!['T', 'X', 'T'],
    }
}

/// The record type whose canonical name is exactly `u`, if any.
pub open spec fn parse_record_type(u: Seq<char>) -> Option<RecordType> {
    if u == record_type_name(RecordType::A) {
        Some(RecordType::A)
    } else if u == record_type_name(RecordType::Aaaa) {
        Some(RecordType::Aaaa)
    } else if u == record_type_name(RecordType::Cname) {
        Some(RecordType::Cname)
    } else if u == record_type_name(RecordType::MX) {
        Some(RecordType::MX)
    } else if u == record_type_name(RecordType::Txt) {
        Some(RecordType::Txt)
    } else {
        None
    }
}

/// Unicode upper-casing of a text.
pub uninterp spec fn upper_of(s: Seq<char>) -> Seq<char>;

/// Relies on str::to_uppercase: the result depends on the characters alone.
#[verifier::external_body]
fn uppercase(s: &str) -> (r: String)
    ensures
        r@ == upper_of(s@),
{
    s.to_uppercase()
}

/// Only address and alias records are actively managed.
pub open spec fn is_managed_type(t: RecordType) -> bool {
    t == RecordType::A || t == RecordType::Cname
}

impl RecordType {
    /// The canonical name of the type.
    pub fn as_str(&self) -> (r: &'static str)
        ensures
            r@ == record_type_name(*self),
    {
        match self {
            RecordType::A => {
                proof {
                    reveal_strlit("A");
                }
                let r = "A";
                assert(r@ =~= record_type_name(*self));
                r
            },
            RecordType::Aaaa => {
                proof {
                    reveal_strlit("AAAA");
                }
                let r = "AAAA";
                assert(r@ =~= record_type_name(*self));
                r
            },
            RecordType::Cname => {
                proof {
                    reveal_strlit("CNAME");
                }
                let r = "CNAME";
                assert(r@ =~= record_type_name(*self));
                r
            },
            RecordType::MX => {
                proof {
                    reveal_strlit("MX");
                }
                let r = "MX";
                assert(r@ =~= record_type_name(*self));
                r
            },
            RecordType::Txt => {
                proof {
                    reveal_strlit("TXT");
                }
                let r = "TXT";
                assert(r@ =~= record_type_name(*self));
                r
            },
        }
    }

    /// The canonical name of the type as an owned string.
    pub fn to_string(&self) -> (r: String)
        ensures
            r@ == record_type_name(*self),
    {
        String::from_str(self.as_str())
    }

    /// The type whose canonical name is exactly `upper`.
    pub fn from_uppercase(upper: &str) -> (r: Option<RecordType>)
        ensures
            r == parse_record_type(upper@),
    {
        if str_eq(upper, RecordType::A.as_str()) {
            Some(RecordType::A)
        } else if str_eq(upper, RecordType::Aaaa.as_str()) {
            Some(RecordType::Aaaa)
        } else if str_eq(upper, RecordType::Cname.as_str()) {
            Some(RecordType::Cname)
        } else if str_eq(upper, RecordType::MX.as_str()) {
            Some(RecordType::MX)
        } else if str_eq(upper, RecordType::Txt.as_str()) {
            Some(RecordType::Txt)
        } else {
            None
        }
    }

    /// Parses a type name, ignoring case.
    pub fn try_from(s: String) -> (r: Result<RecordType, String>)
        ensures
            parse_record_type(upper_of(s@)) matches Some(t) ==> r == Ok::<RecordType, String>(t),
            parse_record_type(upper_of(s@)) is None ==> (r matches Err(m) && m@ == "Unknown record type: "@ + s@),
    {
        let upper = uppercase(s.as_str());
        match RecordType::from_uppercase(upper.as_str()) {
            Some(t) => Ok(t),
            None => Err(String::from_str("Unknown record type: ").concat(s.as_str())),
        }
    }
}

/// The types this system creates.
pub enum RrType {
    A,
    Cname,
}

/// The wire name of a created record type.
pub open spec fn rr_type_name(t: RrType) -> Seq<char> {
    match t {
        RrType::A => seq!['A'],
        RrType::Cname => seq!['C', 'N', 'A', 'M', 'E'],
    }
}

impl RrType {
    pub fn as_str(&self) -> (r: &'static str)
        ensures
            r@ == rr_type_name(*self),
    {
        match self {
            RrType::A => RecordType::A.as_str(),
            RrType::Cname => RecordType::Cname.as_str(),
        }
    }

    /// Parses an exact wire name of a created type.
    pub fn from_str(s: &str) -> (r: Result<RrType, String>)
        ensures
            s@ == rr_type_name(RrType::A) ==> r matches Ok(RrType::A),
            s@ == rr_type_name(RrType::Cname) ==> r matches Ok(RrType::Cname),
            s@ != rr_type_name(RrType::A) && s@ != rr_type_name(RrType::Cname) ==> (r matches Err(m)
                && m@ == "Invalid record type: "@ + s@),
    {
        if str_eq(s, RrType::A.as_str()) {
            Ok(RrType::A)
        } else if str_eq(s, RrType::Cname.as_str()) {
            Ok(RrType::Cname)
        } else {
            Err(String::from_str("Invalid record type: ").concat(s))
        }
    }
}

/// Flags Cloudflare attaches to a listed record.
#[derive(Debug, Clone)]
pub struct Meta {
    pub auto_added: Option<bool>,
    pub managed_by_apps: Option<bool>,
    pub managed_by_argo_tunnel: Option<bool>,
}

/// A record as the Cloudflare list endpoint returns it.
#[derive(Debug)]
pub struct CloudflareRecord {
    pub comment: Option<String>,
    pub content: String,
    pub created_on: String,
    pub id: String,
    pub meta: Meta,
    pub modified_on: String,
    pub name: String,
    pub proxiable: bool,
    pub proxied: bool,
    pub settings: serde_json::Value,
    pub tags: Vec<String>,
    pub ttl: u32,
    pub record_type: RecordType,
    pub zone_id: Option<String>,
    pub zone_name: Option<String>,
}

/// Paging metadata of a Cloudflare listing.
#[derive(Debug, Clone, Copy)]
pub struct ResultInfo {
    pub count: u32,
    pub page: u32,
    pub per_page: u32,
    pub total_count: u32,
    pub total_pages: u32,
}

/// The envelope of one page of a Cloudflare listing.
#[derive(Debug)]
pub struct ListRecordsResponse {
    pub errors: Vec<serde_json::Value>,
    pub messages: Vec<serde_json::Value>,
    pub result: Vec<CloudflareRecord>,
    pub result_info: ResultInfo,
    pub success: bool,
}

/// A managed DNS record, independent of the provider that holds it.
#[derive(Debug, Clone)]
pub struct Record {
    pub domain: String,
    pub record_type: String,
    pub ip: String,
    pub ttl: i64,
    /// The provider-native identifier; `None` until the record is created.
    pub source_id: Option<String>,
}

/// The externally visible projection of a record: its opaque id beside the
/// provider identifier that updates and deletes need.
#[derive(Debug, Clone)]
pub struct DisplayRecord {
    pub domain: String,
    pub record_type: String,
    pub ip: String,
    pub ttl: i64,
    pub id: String,
    pub source_id: String,
}

pub struct RecordView {
    pub domain: Seq<char>,
    pub record_type: Seq<char>,
    pub ip: Seq<char>,
    pub ttl: i64,
    pub source_id: Option<Seq<char>>,
}

pub struct DisplayRecordView {
    pub domain: Seq<char>,
    pub record_type: Seq<char>,
    pub ip: Seq<char>,
    pub ttl: i64,
    pub id: Seq<char>,
    pub source_id: Seq<char>,
}

pub open spec fn opt_view(o: Option<String>) -> Option<Seq<char>> {
    match o {
        Some(s) => Some(s@),
        None => None,
    }
}

impl View for Record {
    type V = RecordView;

    open spec fn view(&self) -> RecordView {
        RecordView {
            domain: self.domain@,
            record_type: self.record_type@,
            ip: self.ip@,
            ttl: self.ttl,
            source_id: opt_view(self.source_id),
        }
    }
}

impl View for DisplayRecord {
    type V = DisplayRecordView;

    open spec fn view(&self) -> DisplayRecordView {
        DisplayRecordView {
            domain: self.domain@,
            record_type: self.record_type@,
            ip: self.ip@,
            ttl: self.ttl,
            id: self.id@,
            source_id: self.source_id@,
        }
    }
}

/// The views of a sequence of records.
pub open spec fn records_view(rs: Seq<Record>) -> Seq<RecordView> {
    rs.map_values(|r: Record| r@)
}

/// The views of a sequence of display records.
pub open spec fn display_records_view(rs: Seq<DisplayRecord>) -> Seq<DisplayRecordView> {
    rs.map_values(|r: DisplayRecord| r@)
}

/// The record a Cloudflare listing entry stands for.
pub open spec fn cloudflare_view(c: CloudflareRecord) -> RecordView {
    RecordView {
        domain: c.name@,
        record_type: record_type_name(c.record_type),
        ip: c.content@,
        ttl: c.ttl as i64,
        source_id: Some(c.id@),
    }
}

/// The display projection of a persisted record under `salt`.
pub open spec fn display_view(r: RecordView, salt: Seq<char>) -> DisplayRecordView {
    DisplayRecordView {
        domain: r.domain,
        record_type: r.record_type,
        ip: r.ip,
        ttl: r.ttl,
        id: record_id(salt, r.domain),
        source_id: r.source_id.unwrap(),
    }
}

/// The record that a display record designates.
pub open spec fn undisplay_view(d: DisplayRecordView) -> RecordView {
    RecordView {
        domain: d.domain,
        record_type: d.record_type,
        ip: d.ip,
        ttl: d.ttl,
        source_id: Some(d.source_id),
    }
}

/// The managed records of a Cloudflare page, in page order.
pub open spec fn managed_view(rs: Seq<CloudflareRecord>) -> Seq<RecordView>
    decreases rs.len(),
{
    if rs.len() == 0 {
        seq![]
    } else if is_managed_type(rs.last().record_type) {
        managed_view(rs.drop_last()).push(cloudflare_view(rs.last()))
    } else {
        managed_view(rs.drop_last())
    }
}

/// Type filtering keeps exactly the address and alias records of a page, in
/// their original relative order, and drops every other type.
pub proof fn lemma_managed_is_type_filter(rs: Seq<CloudflareRecord>)
    ensures
        managed_view(rs) == rs.filter(|c: CloudflareRecord| is_managed_type(c.record_type)).map_values(
            |c: CloudflareRecord| cloudflare_view(c),
        ),
    decreases rs.len(),
{
    reveal(Seq::filter);
    let pred = |c: CloudflareRecord| is_managed_type(c.record_type);
    let f = |c: CloudflareRecord| cloudflare_view(c);
    if rs.len() > 0 {
        lemma_managed_is_type_filter(rs.drop_last());
        let sub = rs.drop_last().filter(pred);
        if pred(rs.last()) {
            assert(sub.push(rs.last()).map_values(f) =~= sub.map_values(f).push(f(rs.last())));
        }
    } else {
        assert(rs.filter(pred).map_values(f) =~= seq![]);
    }
}

/// Clones an optional string.
pub fn clone_opt(o: &Option<String>) -> (r: Option<String>)
    ensures
        opt_view(r) == opt_view(*o),
{
    match o {
        Some(s) => Some(s.clone()),
        None => None,
    }
}

impl Default for Record {
    fn default() -> (r: Record)
        ensures
            r.domain@ == "localhost"@,
            r.record_type@ == rr_type_name(RrType::A),
            r.ip@ == "0.0.0.0"@,
            r.ttl == 60,
            r.source_id is None,
    {
        Record {
            domain: String::from_str("localhost"),
            record_type: String::from_str(RrType::A.as_str()),
            ip: String::from_str("0.0.0.0"),
            ttl: 60,
            source_id: None,
        }
    }
}

impl Record {
    /// The record that a Cloudflare listing entry stands for.
    pub fn from_cloudflare(c: &CloudflareRecord) -> (r: Record)
        ensures
            r@ == cloudflare_view(*c),
    {
        Record {
            domain: c.name.clone(),
            record_type: c.record_type.to_string(),
            ip: c.content.clone(),
            ttl: c.ttl as i64,
            source_id: Some(c.id.clone()),
        }
    }

    /// The record that a display record designates.
    pub fn from_display(d: &DisplayRecord) -> (r: Record)
        ensures
            r@ == undisplay_view(d@),
    {
        Record {
            domain: d.domain.clone(),
            record_type: d.record_type.clone(),
            ip: d.ip.clone(),
            ttl: d.ttl,
            source_id: Some(d.source_id.clone()),
        }
    }

    /// The opaque id of this record's domain under `salt`.
    pub fn id(&self, salt: &str) -> (r: String)
        ensures
            r@ == record_id(salt@, self.domain@),
    {
        opaque_id(salt, self.domain.as_str())
    }

    /// The display projection; only persisted records have one.
    pub fn for_display(&self, salt: &str) -> (r: DisplayRecord)
        requires
            self.source_id is Some,
        ensures
            r@ == display_view(self@, salt@),
    {
        let source_id = match &self.source_id {
            Some(s) => s.clone(),
            None => String::new(),
        };
        DisplayRecord {
            domain: self.domain.clone(),
            record_type: self.record_type.clone(),
            ip: self.ip.clone(),
            ttl: self.ttl,
            id: self.id(salt),
            source_id,
        }
    }
}

/// The display projections of persisted records, in the same order.
pub fn display_records(records: &Vec<Record>, salt: &str) -> (r: Vec<DisplayRecord>)
    requires
        forall|i: int| 0 <= i < records@.len() ==> (#[trigger] records@[i]).source_id is Some,
    ensures
        display_records_view(r@) == records_view(records@).map_values(
            |v: RecordView| display_view(v, salt@),
        ),
{
    let mut out: Vec<DisplayRecord> = Vec::new();
    let mut i: usize = 0;
    while i < records.len()
        invariant
            i <= records@.len(),
            forall|k: int| 0 <= k < records@.len() ==> (#[trigger] records@[k]).source_id is Some,
            out@.len() == i,
            forall|k: int|
                0 <= k < i ==> (#[trigger] out@[k])@ == display_view(records@[k]@, salt@),
        decreases records@.len() - i,
    {
        out.push(records[i].for_display(salt));
        i = i + 1;
    }
    assert(display_records_view(out@) =~= records_view(records@).map_values(
        |v: RecordView| display_view(v, salt@),
    ));
    out
}

/// The actively managed (address and alias) records of a Cloudflare page,
/// in page order; all other types are dropped.
pub fn managed_records(page: &ListRecordsResponse) -> (r: Vec<Record>)
    ensures
        records_view(r@) == managed_view(page.result@),
{
    let rs = &page.result;
    let mut out: Vec<Record> = Vec::new();
    let mut i: usize = 0;
    while i < rs.len()
        invariant
            rs == page.result,
            i <= rs@.len(),
            records_view(out@) =~= managed_view(rs@.subrange(0, i as int)),
        decreases rs@.len() - i,
    {
        let c = &rs[i];
        proof {
            assert(rs@.subrange(0, i + 1).drop_last() =~= rs@.subrange(0, i as int));
        }
        if matches!(c.record_type, RecordType::A) || matches!(c.record_type, RecordType::Cname) {
            out.push(Record::from_cloudflare(c));
        }
        i = i + 1;
        assert(records_view(out@) =~= managed_view(rs@.subrange(0, i as int)));
    }
    assert(rs@.subrange(0, rs@.len() as int) =~= rs@);
    out
}

} // verus!
