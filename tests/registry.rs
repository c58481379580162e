use wizlight_rs::scenes::scene_name;
use wizlight_rs::models::{BulbRegistration, BulbRegistry, DiscoveredBulb, RegistrationMessage};
use wizlight_rs::WizError;

fn message(mac: &str, success: bool, ip: Option<&str>) -> RegistrationMessage {
    RegistrationMessage {
        method: "registration".to_string(),
        env: "pro".to_string(),
        result: BulbRegistration { mac: mac.to_string(), success },
        ip: ip.map(|s| s.to_string()),
    }
}

#[test]
fn conversion_takes_mac_and_sender() {
    let b = message("a8bb50d46a1c", true, Some("192.168.0.7")).try_into().expect("converts");
    assert_eq!(b.mac_address, "a8bb50d46a1c");
    assert_eq!(b.ip_address, "192.168.0.7");
}

#[test]
fn conversion_refused_registration() {
    match message("a8bb50d46a1c", false, Some("192.168.0.7")).try_into() {
        Err(WizError::RegErr(m)) => assert_eq!(m.result.mac, "a8bb50d46a1c"),
        other => panic!("expected RegErr, got {:?}", other),
    }
}

#[test]
fn conversion_refusal_comes_before_missing_address() {
    assert!(matches!(message("a8", false, None).try_into(), Err(WizError::RegErr(_))));
}

#[test]
fn conversion_without_address() {
    assert!(matches!(message("a8bb50d46a1c", true, None).try_into(), Err(WizError::NoIP(_))));
}

#[test]
fn conversion_with_empty_mac() {
    assert!(matches!(message("", true, Some("10.0.0.1")).try_into(), Err(WizError::NoMac(_))));
}

#[test]
fn new_registry_is_empty() {
    let r = BulbRegistry::new();
    assert_eq!(r.len(), 0);
    assert!(r.bulbs().is_empty());
    assert!(r.get("a8").is_none());
    assert!(!r.is_registered("a8"));
}

#[test]
fn last_write_wins() {
    let mut r = BulbRegistry::new();
    r.register(DiscoveredBulb::new("10.0.0.1".to_string(), "a8bb".to_string()));
    r.register(DiscoveredBulb::new("10.0.0.2".to_string(), "a8bb".to_string()));
    assert_eq!(r.len(), 1);
    assert_eq!(r.get("a8bb").unwrap().ip_address, "10.0.0.2");
    assert_eq!(r.bulbs().len(), 1);
}

#[test]
fn identical_registration_is_idempotent() {
    let mut r = BulbRegistry::new();
    let b = DiscoveredBulb::new("10.0.0.1".to_string(), "a8bb".to_string());
    r.register(b.clone());
    r.register(b);
    assert_eq!(r.len(), 1);
    assert_eq!(r.get("a8bb").unwrap().ip_address, "10.0.0.1");
}

#[test]
fn list_holds_every_device_once() {
    let mut r = BulbRegistry::new();
    for (ip, mac) in [("10.0.0.1", "m1"), ("10.0.0.2", "m2"), ("10.0.0.3", "m3")] {
        r.register(DiscoveredBulb::new(ip.to_string(), mac.to_string()));
    }
    let mut macs: Vec<String> = r.bulbs().iter().map(|b| b.mac_address.clone()).collect();
    macs.sort();
    assert_eq!(macs, vec!["m1", "m2", "m3"]);
    assert!(r.is_registered("m2"));
    assert_eq!(r.get("m3").unwrap().ip_address, "10.0.0.3");
    assert!(r.get("m4").is_none());
}

#[test]
fn into_inner_keeps_the_entries() {
    let mut r = BulbRegistry::new();
    r.register(DiscoveredBulb::new("10.0.0.1".to_string(), "m1".to_string()));
    let table = r.into_inner();
    assert_eq!(table.len(), 1);
}

#[test]
fn default_registry_is_empty() {
    let r = BulbRegistry::default();
    assert_eq!(r.len(), 0);
}

#[test]
fn scene_names() {
    assert_eq!(scene_name(1), Some("Ocean"));
    assert_eq!(scene_name(8), Some("Pastel Colors"));
    assert_eq!(scene_name(30), Some("Golden white"));
    assert_eq!(scene_name(32), Some("Steampunk"));
    assert_eq!(scene_name(1000), Some("Rhythm"));
    assert_eq!(scene_name(0), None);
    assert_eq!(scene_name(33), None);
}

#[test]
fn table_readers() {
    let mut r = BulbRegistry::new();
    r.register(DiscoveredBulb::new("10.0.0.1".to_string(), "m1".to_string()));
    r.register(DiscoveredBulb::new("10.0.0.2".to_string(), "m2".to_string()));
    let t = r.inner();
    assert_eq!(t.len(), 2);
    assert_eq!(t.get("m2").unwrap().ip_address, "10.0.0.2");
    assert!(t.get("m3").is_none());
    assert_eq!(t.values().len(), 2);
    let t = r.into_inner();
    assert_eq!(t.get("m1").unwrap().mac_address, "m1");
}
