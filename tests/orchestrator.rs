use dyn_ip::error::DynIpError;
use dyn_ip::id::opaque_id;
use dyn_ip::orchestrator::{record_to_add, record_to_update};
use dyn_ip::record::Record;

fn listed(domain: &str, id: &str) -> Record {
    Record {
        domain: domain.to_string(),
        record_type: "A".to_string(),
        ip: "192.0.2.1".to_string(),
        ttl: 300,
        source_id: Some(id.to_string()),
    }
}

#[test]
fn update_rewrites_address_of_matching_id() {
    let rs = vec![listed("a.example.com.", "ra"), listed("b.example.com.", "rb")];
    let id = opaque_id("salt", "b.example.com.");
    let r = record_to_update(&rs, "salt", &id, "198.51.100.9".to_string()).unwrap();
    assert_eq!(r.domain, "b.example.com.");
    assert_eq!(r.ip, "198.51.100.9");
    assert_eq!(r.ttl, 300);
    assert_eq!(r.source_id, Some("rb".to_string()));
}

#[test]
fn update_matches_id_only() {
    let rs = vec![listed("a.example.com.", "ra")];
    assert!(matches!(
        record_to_update(&rs, "salt", "a.example.com.", "1.1.1.1".to_string()),
        Err(DynIpError::DomainHashNotFound)
    ));
    assert!(matches!(record_to_update(&vec![], "salt", "x", "1.1.1.1".to_string()), Err(DynIpError::DomainHashNotFound)));
}

#[test]
fn add_builds_new_records() {
    let a = record_to_add("home.example.com".to_string(), None, Some("203.0.113.5".to_string()), None).unwrap();
    assert_eq!(a.domain, "home.example.com");
    assert_eq!(a.record_type, "A");
    assert_eq!(a.ip, "203.0.113.5");
    assert_eq!(a.ttl, 60);
    assert!(a.source_id.is_none());
    let c = record_to_add(
        "alias.example.com".to_string(),
        Some("CNAME".to_string()),
        Some("203.0.113.5".to_string()),
        Some("target.example.com".to_string()),
    )
    .unwrap();
    assert_eq!(c.record_type, "CNAME");
    assert_eq!(c.ip, "target.example.com");
    let unknown = record_to_add("x.example.com".to_string(), Some("MX".to_string()), Some("1.2.3.4".to_string()), None).unwrap();
    assert_eq!(unknown.record_type, "A");
}

#[test]
fn add_rejects_missing_content_and_bad_domain() {
    assert!(matches!(record_to_add("x.example.com".to_string(), None, None, Some("h".to_string())), Err(DynIpError::MissingIp)));
    assert!(matches!(
        record_to_add("x.example.com".to_string(), Some("CNAME".to_string()), Some("1.2.3.4".to_string()), None),
        Err(DynIpError::MissingIp)
    ));
    assert!(matches!(record_to_add("bad domain".to_string(), None, Some("1.2.3.4".to_string()), None), Err(DynIpError::DomainParse(_))));
}
