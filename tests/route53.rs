use dyn_ip::error::DynIpError;
use dyn_ip::id::opaque_id;
use dyn_ip::provider::ChangeAction;
use dyn_ip::record::Record;
use dyn_ip::route53::{RecordSet, Route53};

fn zone() -> Route53 {
    Route53::new("Z123".to_string(), "example.com".to_string()).unwrap()
}

fn set(name: &str, value: &str) -> RecordSet {
    RecordSet {
        name: name.to_string(),
        record_type: "A".to_string(),
        values: vec![value.to_string()],
        ttl: Some(300),
    }
}

fn record(domain: &str, id: Option<&str>) -> Record {
    Record {
        domain: domain.to_string(),
        record_type: "A".to_string(),
        ip: "192.0.2.10".to_string(),
        ttl: 60,
        source_id: id.map(|s| s.to_string()),
    }
}

#[test]
fn route53_construction() {
    assert_eq!(zone().domain_name(), "example.com.");
    assert!(matches!(Route53::new("Z".to_string(), "no spaces allowed".to_string()), Err(DynIpError::DomainParse(_))));
}

#[test]
fn cursor_pagination_excludes_apex() {
    let z = zone();
    let mut listing = z.list_records();
    let first = listing.next_request(&z).unwrap();
    assert_eq!(first.hosted_zone_id, "Z123");
    assert!(first.start_record_identifier.is_none());
    listing.receive_page(&z, &vec![set("example.com.", "192.0.2.1"), set("a.example.com.", "192.0.2.2")], Some("B".to_string()));
    assert!(!listing.finished);
    let second = listing.next_request(&z).unwrap();
    assert_eq!(second.start_record_identifier, Some("B".to_string()));
    listing.receive_page(&z, &vec![set("b.example.com.", "192.0.2.3"), set("example.com.", "192.0.2.4")], None);
    assert!(listing.finished);
    assert!(listing.next_request(&z).is_none());
    let records = listing.into_records();
    let names: Vec<&str> = records.iter().map(|r| r.domain.as_str()).collect();
    assert_eq!(names, vec!["a.example.com.", "b.example.com."]);
    assert_eq!(records[1].ip, "192.0.2.3");
    assert_eq!(records[1].ttl, 300);
    assert_eq!(records[1].source_id, Some("b.example.com.".to_string()));
}

#[test]
fn record_set_defaults() {
    let s = RecordSet { name: "x.example.com.".to_string(), record_type: "CNAME".to_string(), values: vec![], ttl: None };
    let r = s.to_record();
    assert_eq!(r.ip, "");
    assert_eq!(r.ttl, 60);
    assert_eq!(r.record_type, "CNAME");
}

#[test]
fn domain_qualification() {
    let z = zone();
    let q = z.update_record(ChangeAction::Upsert, record("www", None)).unwrap();
    assert_eq!(q.record.domain, "www.example.com.");
    assert_eq!(q.hosted_zone_id, "Z123");
    assert_eq!(q.action, ChangeAction::Upsert);
    let kept = z.update_record(ChangeAction::Upsert, record("home.example.com.", None)).unwrap();
    assert_eq!(kept.record.domain, "home.example.com.");
    assert_eq!(z.qualify(record("a.b", None)).domain, "a.b.example.com.");
}

#[test]
fn route53_missing_id_guard() {
    let z = zone();
    assert!(matches!(z.update_record(ChangeAction::Delete, record("www", None)), Err(DynIpError::MissingId)));
    let ok = z.update_record(ChangeAction::Delete, record("www.example.com.", Some("www.example.com."))).unwrap();
    assert_eq!(ok.action, ChangeAction::Delete);
}

#[test]
fn route53_delete_resolution() {
    let z = zone();
    let listing = vec![record("a.example.com.", Some("a.example.com.")), record("b.example.com.", Some("b.example.com."))];
    let by_domain = z.delete(&listing, "s", "b.example.com.").unwrap();
    assert_eq!(by_domain.record.domain, "b.example.com.");
    assert_eq!(by_domain.action, ChangeAction::Delete);
    let by_id = z.delete(&listing, "s", &opaque_id("s", "a.example.com.")).unwrap();
    assert_eq!(by_id.record.domain, "a.example.com.");
    assert!(matches!(z.delete(&listing, "s", "zzz"), Err(DynIpError::DomainHashNotFound)));
    assert_eq!(z.list_display_records(&listing, "s").len(), 2);
}
