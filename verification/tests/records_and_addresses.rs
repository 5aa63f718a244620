//! Record extraction from a peer's response, text helpers, and the address
//! filter.
use lanlink::addresses::filter_non_loopback;
use lanlink::record::{extract_device, ResourceRecord};
use lanlink::text::{decimal_string, socket_port_entry, trim_trailing_dots};

#[test]
fn extract_takes_last_service_record_and_all_text() {
    let records = vec![
        ResourceRecord::Text { entries: vec!["a=1".to_string()] },
        ResourceRecord::Service {
            name: "Old._demo._tcp.local.".to_string(),
            hostname: "old.local.".to_string(),
            port: 1111,
        },
        ResourceRecord::Other,
        ResourceRecord::Text { entries: vec!["b=2".to_string(), "c=3".to_string()] },
        ResourceRecord::Service {
            name: "Demo-1._demo._tcp.local.".to_string(),
            hostname: "Demo-1.local.".to_string(),
            port: 9000,
        },
    ];
    let d = extract_device(&records, "192.168.1.7".to_string());
    assert_eq!(d.name, "Demo-1._demo._tcp.local");
    assert_eq!(d.hostname, "Demo-1.local");
    assert_eq!(d.port, 9000);
    assert_eq!(d.address, "192.168.1.7");
    assert_eq!(d.txt, vec!["a=1".to_string(), "b=2".to_string(), "c=3".to_string()]);
}

#[test]
fn extract_without_service_record_still_emits() {
    let records = vec![ResourceRecord::Text { entries: vec!["k=v".to_string()] }];
    let d = extract_device(&records, "10.0.0.9".to_string());
    assert_eq!(d.name, "");
    assert_eq!(d.hostname, "");
    assert_eq!(d.port, 0);
    assert_eq!(d.txt, vec!["k=v".to_string()]);
}

#[test]
fn extract_from_empty_response() {
    let records: Vec<ResourceRecord> = Vec::new();
    let d = extract_device(&records, "10.0.0.9".to_string());
    assert_eq!(d.name, "");
    assert_eq!(d.hostname, "");
    assert_eq!(d.port, 0);
    assert!(d.txt.is_empty());
}

#[test]
fn trimming_trailing_dots() {
    assert_eq!(trim_trailing_dots("host.local."), "host.local");
    assert_eq!(trim_trailing_dots("host.local..."), "host.local");
    assert_eq!(trim_trailing_dots("..."), "");
    assert_eq!(trim_trailing_dots("plain"), "plain");
    assert_eq!(trim_trailing_dots(""), "");
}

#[test]
fn decimal_rendering() {
    assert_eq!(decimal_string(0), "0");
    assert_eq!(decimal_string(7), "7");
    assert_eq!(decimal_string(9100), "9100");
    assert_eq!(decimal_string(65535), "65535");
    assert_eq!(decimal_string(10000), "10000");
}

#[test]
fn socket_port_entries() {
    assert_eq!(socket_port_entry(9100), "socketPort=9100");
    assert_eq!(socket_port_entry(0), "socketPort=0");
    assert_eq!(socket_port_entry(65535), "socketPort=65535");
}

#[test]
fn loopback_addresses_are_filtered() {
    let candidates = vec![
        ("127.0.0.1".to_string(), true),
        ("192.168.1.5".to_string(), false),
        ("::1".to_string(), true),
        ("10.0.0.2".to_string(), false),
    ];
    let kept = filter_non_loopback(&candidates);
    assert_eq!(kept, vec!["192.168.1.5".to_string(), "10.0.0.2".to_string()]);
}

#[test]
fn all_loopback_yields_empty() {
    let candidates = vec![("127.0.0.1".to_string(), true), ("::1".to_string(), true)];
    assert!(filter_non_loopback(&candidates).is_empty());
}
