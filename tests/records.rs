use dyn_ip::auth::{ApiConfig, Auth};
use dyn_ip::id::{opaque_id, to_hex};
use dyn_ip::provider::find_record;
use dyn_ip::record::{display_records, managed_records, CloudflareRecord, DisplayRecord, ListRecordsResponse, Meta, Record, RecordType, ResultInfo, RrType};

fn cf(name: &str, t: RecordType, content: &str, id: &str) -> CloudflareRecord {
    CloudflareRecord {
        comment: None,
        content: content.to_string(),
        created_on: "2024-01-01T00:00:00Z".to_string(),
        id: id.to_string(),
        meta: Meta { auto_added: Some(false), managed_by_apps: None, managed_by_argo_tunnel: None },
        modified_on: "2024-01-01T00:00:00Z".to_string(),
        name: name.to_string(),
        proxiable: true,
        proxied: false,
        settings: serde_json::Value::Null,
        tags: vec![],
        ttl: 300,
        record_type: t,
        zone_id: None,
        zone_name: None,
    }
}

fn page(result: Vec<CloudflareRecord>) -> ListRecordsResponse {
    let n = result.len() as u32;
    ListRecordsResponse {
        errors: vec![],
        messages: vec![],
        result,
        result_info: ResultInfo { count: n, page: 1, per_page: 100, total_count: n, total_pages: 1 },
        success: true,
    }
}

fn persisted(domain: &str, ip: &str, id: &str) -> Record {
    Record {
        domain: domain.to_string(),
        record_type: "A".to_string(),
        ip: ip.to_string(),
        ttl: 60,
        source_id: Some(id.to_string()),
    }
}

#[test]
fn hex_of_bytes() {
    assert_eq!(to_hex(&vec![0x00, 0x0f, 0xa5, 0xff]), "000fa5ff");
    assert_eq!(to_hex(&vec![]), "");
}

#[test]
fn id_is_md5_hex_of_salt_and_domain() {
    assert_eq!(opaque_id("", ""), "d41d8cd98f00b204e9800998ecf8427e");
    assert_eq!(opaque_id("", "abc"), "900150983cd24fb0d6963f7d28e17f72");
    assert_eq!(opaque_id("a", "bc"), "900150983cd24fb0d6963f7d28e17f72");
    let r = persisted("abc", "1.2.3.4", "x");
    assert_eq!(r.id(""), "900150983cd24fb0d6963f7d28e17f72");
}

#[test]
fn id_is_deterministic_and_distinct() {
    let salt = "pepper";
    let mut seen: Vec<String> = Vec::new();
    for i in 0..200 {
        let d = format!("host{}.example.com.", i);
        let a = opaque_id(salt, &d);
        assert_eq!(a, opaque_id(salt, &d));
        assert_eq!(a.len(), 32);
        assert!(!seen.contains(&a));
        seen.push(a);
    }
}

#[test]
fn id_depends_on_salt() {
    assert_ne!(opaque_id("salt-one", "home.example.com."), opaque_id("salt-two", "home.example.com."));
    assert_ne!(opaque_id("salt-one", "www.example.com."), opaque_id("salt-two", "www.example.com."));
}

#[test]
fn for_display_keeps_fields_and_adds_id() {
    let r = persisted("home.example.com.", "10.0.0.1", "abc123");
    let d = r.for_display("s");
    assert_eq!(d.domain, "home.example.com.");
    assert_eq!(d.record_type, "A");
    assert_eq!(d.ip, "10.0.0.1");
    assert_eq!(d.ttl, 60);
    assert_eq!(d.source_id, "abc123");
    assert_eq!(d.id, opaque_id("s", "home.example.com."));
    let back = Record::from_display(&d);
    assert_eq!(back.domain, r.domain);
    assert_eq!(back.source_id, Some("abc123".to_string()));
}

#[test]
fn display_records_keep_order() {
    let rs = vec![persisted("b.example.com.", "1.1.1.1", "1"), persisted("a.example.com.", "2.2.2.2", "2")];
    let ds = display_records(&rs, "salt");
    assert_eq!(ds.len(), 2);
    assert_eq!(ds[0].domain, "b.example.com.");
    assert_eq!(ds[1].domain, "a.example.com.");
}

#[test]
fn default_record() {
    let r = Record::default();
    assert_eq!(r.domain, "localhost");
    assert_eq!(r.record_type, "A");
    assert_eq!(r.ip, "0.0.0.0");
    assert_eq!(r.ttl, 60);
    assert!(r.source_id.is_none());
}

#[test]
fn record_type_names() {
    assert!(matches!(RecordType::try_from("cname".to_string()), Ok(RecordType::Cname)));
    assert!(matches!(RecordType::try_from("Aaaa".to_string()), Ok(RecordType::Aaaa)));
    assert!(matches!(RecordType::try_from("mx".to_string()), Ok(RecordType::MX)));
    assert!(matches!(RecordType::try_from("TXT".to_string()), Ok(RecordType::Txt)));
    assert!(matches!(RecordType::try_from("a".to_string()), Ok(RecordType::A)));
    match RecordType::try_from("srv".to_string()) {
        Err(m) => assert_eq!(m, "Unknown record type: srv"),
        Ok(_) => panic!("srv is not a supported type"),
    }
    assert_eq!(RecordType::Aaaa.to_string(), "AAAA");
    assert_eq!(RecordType::MX.as_str(), "MX");
    assert!(RecordType::from_uppercase("cname").is_none());
}

#[test]
fn rr_type_round_trip() {
    assert_eq!(RrType::A.as_str(), "A");
    assert_eq!(RrType::Cname.as_str(), "CNAME");
    assert!(matches!(RrType::from_str("CNAME"), Ok(RrType::Cname)));
    match RrType::from_str("cname") {
        Err(m) => assert_eq!(m, "Invalid record type: cname"),
        Ok(_) => panic!("wire names are exact"),
    }
}

#[test]
fn type_filtering_keeps_a_and_cname_in_order() {
    let p = page(vec![
        cf("a.example.com.", RecordType::A, "1.1.1.1", "1"),
        cf("b.example.com.", RecordType::Aaaa, "::1", "2"),
        cf("c.example.com.", RecordType::Cname, "a.example.com.", "3"),
        cf("d.example.com.", RecordType::MX, "mail.example.com.", "4"),
        cf("e.example.com.", RecordType::A, "5.5.5.5", "5"),
    ]);
    let rs = managed_records(&p);
    let names: Vec<&str> = rs.iter().map(|r| r.domain.as_str()).collect();
    assert_eq!(names, vec!["a.example.com.", "c.example.com.", "e.example.com."]);
    assert_eq!(rs[1].record_type, "CNAME");
    assert_eq!(rs[1].ip, "a.example.com.");
    assert_eq!(rs[0].ttl, 300);
    assert_eq!(rs[2].source_id, Some("5".to_string()));
}

#[test]
fn find_by_id_or_domain() {
    let rs = vec![persisted("a.example.com.", "1.1.1.1", "1"), persisted("b.example.com.", "2.2.2.2", "2")];
    let ds: Vec<DisplayRecord> = display_records(&rs, "salt");
    assert_eq!(find_record(&ds, "b.example.com."), Some(1));
    assert_eq!(find_record(&ds, &ds[0].id.clone()), Some(0));
    assert_eq!(find_record(&ds, "c.example.com."), None);
    assert_eq!(find_record(&ds, "2"), None);
}

#[test]
fn auth_checks() {
    let open = Auth { username: None, password: Some("p".to_string()) };
    assert!(!open.has_credentials());
    assert!(open.check_credentials("anyone", None));
    let closed = Auth { username: Some("u".to_string()), password: Some("p".to_string()) };
    assert!(closed.has_credentials());
    assert!(closed.check_credentials("u", Some("p")));
    assert!(!closed.check_credentials("u", Some("q")));
    assert!(!closed.check_credentials("v", Some("p")));
    assert!(!closed.check_credentials("u", None));
    let empty_pw = Auth { username: Some("u".to_string()), password: Some(String::new()) };
    assert!(empty_pw.check_credentials("u", None));
    let config = ApiConfig { salt: "s".to_string(), auth: closed };
    assert_eq!(config.salt, "s");
}
