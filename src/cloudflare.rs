//! The Cloudflare adapter: the API calls it makes, decided from plain
//! values, and its page-counter pagination. The caller performs each call
//! and hands the decoded answer back.
use crate::domain::{absolute_domain, absolute_form, is_domain_name};
use crate::error::DynIpError;
use crate::id::hex_char;
use crate::provider::{any_answers_to, concat_pages, find_record, is_first_answer, ChangeAction};
use crate::record::{
    display_records, display_view, managed_records, managed_view, records_view, DisplayRecordView,
    ListRecordsResponse, Record, RecordView,
};
use vstd::prelude::*;
use vstd::string::*;

verus! {

/// Decimal digits of a natural number, most significant first.
pub open spec fn decimal_of(n: nat) -> Seq<char>
    decreases n,
{
    if n < 10 {
        seq![hex_char(n as int)]
    } else {
        decimal_of(n / 10).push(hex_char((n % 10) as int))
    }
}

/// Relies on u32's `Display` (through `to_string`): its decimal digits,
/// without sign or padding.
#[verifier::external_body]
fn decimal(n: u32) -> (r: String)
    ensures
        r@ == decimal_of(n as nat),
{
    n.to_string()
}

/// The HTTP methods the adapter uses.
#[derive(Debug, Clone, Copy, PartialEq, Eq, Structural)]
pub enum HttpMethod {
    Get,
    Post,
    Patch,
    Delete,
}

/// The JSON body of a create or modify call.
#[derive(Debug, Clone)]
pub struct RecordBody {
    pub record_type: String,
    pub name: String,
    pub content: String,
    pub ttl: i64,
    pub proxied: bool,
}

/// One call to the Cloudflare API, with its `Authorization` header value.
#[derive(Debug, Clone)]
pub struct ApiRequest {
    pub method: HttpMethod,
    pub url: String,
    pub authorization: String,
    pub body: Option<RecordBody>,
}

pub open spec fn zones_url() -> Seq<char> {
    "https://api.cloudflare.com/client/v4/zones/"@
}

/// The record collection of a zone.
pub open spec fn zone_records_url(zone: Seq<char>) -> Seq<char> {
    zones_url() + zone + "/dns_records"@
}

/// One record of a zone.
pub open spec fn record_url(zone: Seq<char>, id: Seq<char>) -> Seq<char> {
    zone_records_url(zone) + "/"@ + id
}

/// One page of a zone's record listing.
pub open spec fn page_url(zone: Seq<char>, page: nat) -> Seq<char> {
    zone_records_url(zone) + "?page="@ + decimal_of(page)
}

pub open spec fn bearer(key: Seq<char>) -> Seq<char> {
    "Bearer "@ + key
}

/// `b` carries the record's content, name, type and ttl, unproxied.
pub open spec fn body_of(b: RecordBody, r: RecordView) -> bool {
    &&& b.record_type@ == r.record_type
    &&& b.name@ == r.domain
    &&& b.content@ == r.ip
    &&& b.ttl == r.ttl
    &&& !b.proxied
}

/// The request carries a body for the record.
pub open spec fn carries(body: Option<RecordBody>, r: RecordView) -> bool {
    body matches Some(b) && body_of(b, r)
}

/// The diagnostic text of a failed call.
pub open spec fn failure_text(status: Seq<char>, body: Option<Seq<char>>) -> Seq<char> {
    "API request failed with status "@ + status + ": "@ + match body {
        Some(b) => b,
        None => "Failed to read error response"@,
    }
}

/// The display projections of a listing under `salt`.
pub open spec fn listed_display(records: Seq<Record>, salt: Seq<char>) -> Seq<DisplayRecordView> {
    records_view(records).map_values(|v: RecordView| display_view(v, salt))
}

/// The Cloudflare adapter's configuration: API token, zone, and the managed
/// root domain in absolute form.
#[derive(Debug, Clone)]
pub struct Cloudflare {
    pub api_key: String,
    pub zone_id: String,
    pub domain_name: String,
}

/// The state of a listing in progress: the next page number, the records
/// gathered so far, and whether an empty page has ended it.
pub struct CloudflareListing {
    pub page: u32,
    pub records: Vec<Record>,
    pub finished: bool,
    /// The managed records of each page received, in order.
    pub pages: Ghost<Seq<Seq<RecordView>>>,
}

impl CloudflareListing {
    pub open spec fn wf(&self) -> bool {
        &&& records_view(self.records@) == concat_pages(self.pages@)
        &&& forall|k: int|
            0 <= k < self.pages@.len() - 1 ==> (#[trigger] self.pages@[k]).len() > 0
        &&& if self.finished {
            &&& self.pages@.len() > 0
            &&& self.pages@.last().len() == 0
            &&& self.page as int == self.pages@.len()
        } else {
            &&& self.pages@.len() > 0 ==> self.pages@.last().len() > 0
            &&& self.page as int == self.pages@.len() + 1
        }
    }

    /// The next page to fetch, or `None` once the listing is complete.
    pub fn next_request(&self, cf: &Cloudflare) -> (r: Option<ApiRequest>)
        ensures
            self.finished ==> r is None,
            !self.finished ==> (r matches Some(q) && q.method == HttpMethod::Get && q.url@
                == page_url(cf.zone_id@, self.page as nat) && q.authorization@ == bearer(
                cf.api_key@,
            ) && q.body is None),
    {
        if self.finished {
            None
        } else {
            Some(cf.page_request(self.page))
        }
    }

    /// Takes one decoded page: keeps its managed records after those
    /// gathered so far; a page with none ends the listing.
    pub fn receive_page(&mut self, response: &ListRecordsResponse)
        requires
            old(self).wf(),
            !old(self).finished,
            old(self).page < u32::MAX,
        ensures
            final(self).wf(),
            final(self).pages@ == old(self).pages@.push(managed_view(response.result@)),
            final(self).finished == (managed_view(response.result@).len() == 0),
    {
        let mut fresh = managed_records(response);
        let ghost page_view = records_view(fresh@);
        let ghost before = records_view(self.records@);
        let count = fresh.len();
        self.records.append(&mut fresh);
        self.pages = Ghost(self.pages@.push(page_view));
        proof {
            let ps = self.pages@;
            assert(ps.drop_last() =~= old(self).pages@);
            assert(records_view(self.records@) =~= before + page_view);
        }
        if count == 0 {
            self.finished = true;
        } else {
            self.page = self.page + 1;
        }
    }

    /// The complete listing; meaningful once `finished` holds.
    pub fn into_records(self) -> (r: Vec<Record>)
        ensures
            r == self.records,
    {
        self.records
    }
}

/// The adapter configured with an account e-mail and a global API key.
#[derive(Debug, Clone)]
pub struct CloudflareDNS {
    pub email: String,
    pub api_key: String,
    pub zone_id: String,
    pub domain_name: String,
}

impl CloudflareDNS {
    /// Configures the adapter; the root domain is put in absolute form and
    /// must parse as a domain name.
    pub fn new(email: String, api_key: String, zone_id: String, domain_name: String) -> (r: Result<
        CloudflareDNS,
        DynIpError,
    >)
        ensures
            r is Ok <==> is_domain_name(absolute_form(domain_name@)),
            r matches Ok(c) ==> c.email == email && c.api_key == api_key && c.zone_id == zone_id
                && c.domain_name@ == absolute_form(domain_name@),
            r is Err ==> r matches Err(DynIpError::DomainParse(_)),
    {
        let domain_name = absolute_domain(domain_name)?;
        Ok(CloudflareDNS { email, api_key, zone_id, domain_name })
    }

    /// The managed root domain.
    pub fn domain_name(&self) -> (r: &str)
        ensures
            r@ == self.domain_name@,
    {
        self.domain_name.as_str()
    }
}

impl Cloudflare {
    /// Configures the adapter; the root domain is put in absolute form and
    /// must parse as a domain name.
    pub fn new(api_key: String, zone_id: String, _email: String, domain_name: String) -> (r: Result<
        Cloudflare,
        DynIpError,
    >)
        ensures
            r is Ok <==> is_domain_name(absolute_form(domain_name@)),
            r matches Ok(c) ==> c.api_key == api_key && c.zone_id == zone_id && c.domain_name@
                == absolute_form(domain_name@),
            r is Err ==> r matches Err(DynIpError::DomainParse(_)),
    {
        let domain_name = absolute_domain(domain_name)?;
        Ok(Cloudflare { api_key, zone_id, domain_name })
    }

    /// The managed root domain.
    pub fn domain_name(&self) -> (r: &str)
        ensures
            r@ == self.domain_name@,
    {
        self.domain_name.as_str()
    }

    fn request(&self, method: HttpMethod, url: String, body: Option<RecordBody>) -> (r: ApiRequest)
        ensures
            r.method == method,
            r.url == url,
            r.authorization@ == bearer(self.api_key@),
            r.body == body,
    {
        let authorization = String::from_str("Bearer ").concat(self.api_key.as_str());
        ApiRequest { method, url, authorization, body }
    }

    fn records_url(&self) -> (r: String)
        ensures
            r@ == zone_records_url(self.zone_id@),
    {
        let r = String::from_str("https://api.cloudflare.com/client/v4/zones/").concat(
            self.zone_id.as_str(),
        ).concat("/dns_records");
        r
    }

    fn body(record: Record) -> (r: RecordBody)
        ensures
            body_of(r, record@),
    {
        RecordBody {
            record_type: record.record_type,
            name: record.domain,
            content: record.ip,
            ttl: record.ttl,
            proxied: false,
        }
    }

    /// The request for one page of the zone's records.
    pub fn page_request(&self, page: u32) -> (r: ApiRequest)
        ensures
            r.method == HttpMethod::Get,
            r.url@ == page_url(self.zone_id@, page as nat),
            r.authorization@ == bearer(self.api_key@),
            r.body is None,
    {
        let url = self.records_url().concat("?page=").concat(decimal(page).as_str());
        self.request(HttpMethod::Get, url, None)
    }

    /// The request that deletes the record with native id `source_id`.
    pub fn delete_request(&self, source_id: &str) -> (r: ApiRequest)
        ensures
            r.method == HttpMethod::Delete,
            r.url@ == record_url(self.zone_id@, source_id@),
            r.authorization@ == bearer(self.api_key@),
            r.body is None,
    {
        let url = self.records_url().concat("/").concat(source_id);
        self.request(HttpMethod::Delete, url, None)
    }

    /// Maps an HTTP status to success or to an error carrying the status and
    /// the response body (a fixed text where the body could not be read).
    pub fn handle_response(status: u16, status_text: &str, body: Option<String>) -> (r: Result<
        (),
        DynIpError,
    >)
        ensures
            200 <= status < 300 ==> r is Ok,
            !(200 <= status < 300) ==> (r matches Err(DynIpError::Cloudflare(m)) && m@
                == failure_text(status_text@, crate::record::opt_view(body))),
    {
        if 200 <= status && status < 300 {
            Ok(())
        } else {
            let text = match body {
                Some(b) => b,
                None => String::from_str("Failed to read error response"),
            };
            let m = String::from_str("API request failed with status ").concat(status_text).concat(
                ": ",
            ).concat(text.as_str());
            Err(DynIpError::Cloudflare(m))
        }
    }

    /// The modify call for a persisted record; a record without a native
    /// id cannot be modified.
    pub fn update_record(&self, record: Record) -> (r: Result<ApiRequest, DynIpError>)
        ensures
            record.source_id is None ==> r matches Err(DynIpError::MissingId),
            record.source_id matches Some(id) ==> (r matches Ok(q) && q.method == HttpMethod::Patch
                && q.url@ == record_url(self.zone_id@, id@) && q.authorization@ == bearer(
                self.api_key@,
            ) && carries(q.body, record@)),
    {
        match &record.source_id {
            None => Err(DynIpError::MissingId),
            Some(id) => {
                let url = self.records_url().concat("/").concat(id.as_str());
                Ok(self.request(HttpMethod::Patch, url, Some(Cloudflare::body(record))))
            },
        }
    }

    /// The create call for a record.
    pub fn create_record(&self, record: Record) -> (r: ApiRequest)
        ensures
            r.method == HttpMethod::Post,
            r.url@ == zone_records_url(self.zone_id@),
            r.authorization@ == bearer(self.api_key@),
            carries(r.body, record@),
    {
        let url = self.records_url();
        self.request(HttpMethod::Post, url, Some(Cloudflare::body(record)))
    }

    /// The call that carries out `action` on `record`: an upsert modifies
    /// the record when it has a native id and creates it otherwise; a delete
    /// needs the native id; creating through this entry is not supported.
    pub fn change_record(&self, action: ChangeAction, record: Record) -> (r: Result<
        ApiRequest,
        DynIpError,
    >)
        ensures
            action == ChangeAction::Create ==> r matches Err(DynIpError::UnsupportedDNSAction),
            action == ChangeAction::Upsert ==> match record.source_id {
                Some(id) => r matches Ok(q) && q.method == HttpMethod::Patch && q.url@ == record_url(
                    self.zone_id@,
                    id@,
                ) && carries(q.body, record@),
                None => r matches Ok(q) && q.method == HttpMethod::Post && q.url@
                    == zone_records_url(self.zone_id@) && carries(q.body, record@),
            },
            action == ChangeAction::Delete ==> match record.source_id {
                Some(id) => r matches Ok(q) && q.method == HttpMethod::Delete && q.url@
                    == record_url(self.zone_id@, id@) && q.body is None,
                None => r matches Err(DynIpError::MissingId),
            },
            r matches Ok(q) ==> q.authorization@ == bearer(self.api_key@),
    {
        match action {
            ChangeAction::Upsert => {
                if record.source_id.is_some() {
                    self.update_record(record)
                } else {
                    Ok(self.create_record(record))
                }
            },
            ChangeAction::Delete => match &record.source_id {
                Some(id) => Ok(self.delete_request(id.as_str())),
                None => Err(DynIpError::MissingId),
            },
            ChangeAction::Create => Err(DynIpError::UnsupportedDNSAction),
        }
    }

    /// Starts a listing at page 1.
    pub fn list_records(&self) -> (r: CloudflareListing)
        ensures
            r.wf(),
            !r.finished,
            r.page == 1,
            r.pages@.len() == 0,
    {
        let r = CloudflareListing {
            page: 1,
            records: Vec::new(),
            finished: false,
            pages: Ghost(Seq::empty()),
        };
        assert(records_view(r.records@) =~= concat_pages(r.pages@));
        r
    }

    /// The display projections of a listing, in listing order.
    pub fn list_display_records(&self, records: &Vec<Record>, salt: &str) -> (r: Vec<
        crate::record::DisplayRecord,
    >)
        requires
            forall|i: int| 0 <= i < records@.len() ==> (#[trigger] records@[i]).source_id is Some,
        ensures
            crate::record::display_records_view(r@) == records_view(records@).map_values(
                |v: RecordView| display_view(v, salt@),
            ),
    {
        display_records(records, salt)
    }

    /// The delete call for the first record of a complete listing whose id
    /// under `salt`, or whose domain, is `id_or_domain`.
    pub fn delete_record(&self, records: &Vec<Record>, salt: &str, id_or_domain: &str) -> (r:
        Result<ApiRequest, DynIpError>)
        requires
            forall|i: int| 0 <= i < records@.len() ==> (#[trigger] records@[i]).source_id is Some,
        ensures
            r is Ok <==> any_answers_to(listed_display(records@, salt@), id_or_domain@),
            r is Err ==> r matches Err(DynIpError::DomainHashNotFound),
            r matches Ok(q) ==> (q.method == HttpMethod::Delete && q.body is None
                && q.authorization@ == bearer(self.api_key@) && exists|i: int|
                is_first_answer(listed_display(records@, salt@), id_or_domain@, i) && q.url@
                    == record_url(self.zone_id@, #[trigger] listed_display(records@, salt@)[i].source_id)),
    {
        let shown = display_records(records, salt);
        match find_record(&shown, id_or_domain) {
            Some(i) => {
                let req = self.delete_request(shown[i].source_id.as_str());
                proof {
                    let ds = listed_display(records@, salt@);
                    assert(crate::record::display_records_view(shown@) == ds);
                    assert(ds[i as int] == shown@[i as int]@);
                    assert(is_first_answer(ds, id_or_domain@, i as int));
                    assert(req.url@ == record_url(self.zone_id@, ds[i as int].source_id));
                }
                Ok(req)
            },
            None => Err(DynIpError::DomainHashNotFound),
        }
    }
}

} // verus!
