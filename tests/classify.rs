use wizlight_rs::bulblibrary::{kelvin_span, BulbClass, Features, KelvinRange};
use wizlight_rs::push_manager::{gen_mac, join_digits, mac_chars, PushRegisterMessage, RegParams};
use wizlight_rs::text::{contains_text, text_before};
use wizlight_rs::WizError;

fn features(c: &BulbClass) -> &Features {
    match c {
        BulbClass::TW(f) | BulbClass::DW(f) | BulbClass::Rgb(f) | BulbClass::Socket(f) => f,
    }
}

#[test]
fn rgb_model() {
    let c = BulbClass::from_data("ESP01_SHRGB1C_31", None, Some("1.22.0".to_string()), Some(2), Some(20))
        .expect("classified");
    assert!(matches!(c, BulbClass::Rgb(_)));
    let f = features(&c);
    assert!(f.color && f.color_tmp && f.brightness && f.effect && !f.dual_head);
    assert_eq!(f.name, "ESP01_SHRGB1C_31");
    assert_eq!(f.fw_version.as_deref(), Some("1.22.0"));
    assert_eq!(f.white_channels, Some(2));
    assert_eq!(f.white_to_color_ratio, Some(20));
    assert!(f.kelvin_range.is_none());
}

#[test]
fn tunable_white_model() {
    let c = BulbClass::from_data("ESP15_SHTW1_01", None, None, None, None).unwrap();
    assert!(matches!(c, BulbClass::TW(_)));
    let f = features(&c);
    assert!(!f.color && f.color_tmp && f.brightness && f.effect);
}

#[test]
fn socket_model() {
    let c = BulbClass::from_data("ESP10_SOCKET_06", None, None, None, None).unwrap();
    assert!(matches!(c, BulbClass::Socket(_)));
    let f = features(&c);
    assert!(!f.color && !f.color_tmp && !f.brightness && !f.effect);
}

#[test]
fn dimmable_white_models() {
    let c = BulbClass::from_data("ESP06_SHDW9_01", None, None, None, None).unwrap();
    assert!(matches!(c, BulbClass::DW(_)));
    let f = features(&c);
    assert!(!f.color && !f.color_tmp && f.brightness && f.effect && !f.dual_head);

    let c = BulbClass::from_data("ESP05_DHDW_01", None, None, None, None).unwrap();
    let f = features(&c);
    assert!(matches!(c, BulbClass::DW(_)));
    assert!(f.effect && f.dual_head);

    let c = BulbClass::from_data("ESP05_DW_01", None, None, None, None).unwrap();
    assert!(!features(&c).effect);
}

#[test]
fn dual_head_colour_model() {
    let c = BulbClass::from_data("ESP03_DHRGB_02", None, None, None, None).unwrap();
    assert!(matches!(c, BulbClass::Rgb(_)));
    assert!(features(&c).dual_head);
}

#[test]
fn only_the_second_segment_counts() {
    let c = BulbClass::from_data("RGB_DW_TW", None, None, None, None).unwrap();
    assert!(matches!(c, BulbClass::DW(_)));
    let c = BulbClass::from_data("ESP01_", None, None, None, None).unwrap();
    assert!(matches!(c, BulbClass::DW(_)));
    assert!(!features(&c).effect);
}

#[test]
fn model_without_segment() {
    match BulbClass::from_data("ESP01SHRGB", None, None, None, None) {
        Err(WizError::NoIdent(s)) => assert_eq!(s, "ESP01SHRGB"),
        other => panic!("expected NoIdent, got {:?}", other),
    }
}

#[test]
fn kelvin_range_from_list() {
    let c = BulbClass::from_data("ESP01_SHRGB1C_31", Some(vec![2700, 6500, 2200, 4000]), None, None, None)
        .unwrap();
    assert_eq!(features(&c).kelvin_range, Some(KelvinRange { max: 6500, min: 2200 }));
}

#[test]
fn empty_kelvin_list() {
    let c = BulbClass::from_data("ESP01_SHRGB1C_31", Some(vec![]), None, None, None).expect("classified");
    assert!(matches!(c, BulbClass::Rgb(_)));
    assert!(features(&c).kelvin_range.is_none());
    let c = BulbClass::from_data("A_B", Some(vec![]), None, None, None).expect("classified");
    assert!(matches!(c, BulbClass::DW(_)));
}

#[test]
fn kelvin_span_values() {
    assert_eq!(kelvin_span(vec![5000]), Some(KelvinRange::new(5000, 5000)));
    assert_eq!(kelvin_span(vec![6500, 1000, 3000]), Some(KelvinRange::new(6500, 1000)));
    assert_eq!(kelvin_span(vec![]), None);
}

#[test]
fn feature_constructors() {
    let f = Features::sock_new("n".to_string(), None, true, true, None, None, None);
    assert!(!f.color && !f.color_tmp && !f.brightness && f.effect && f.dual_head);
    let f = Features::dw_new("n".to_string(), None, false, false, Some(1), None, Some(KelvinRange::new(2, 1)));
    assert!(!f.color && !f.color_tmp && f.brightness);
    assert_eq!(f.white_channels, Some(1));
    let f = Features::tw_new("n".to_string(), None, false, false, None, None, None);
    assert!(!f.color && f.color_tmp && f.brightness);
    let f = Features::rgb_new("n".to_string(), None, false, false, None, None, None);
    assert!(f.color && f.color_tmp && f.brightness);
}

#[test]
fn text_search() {
    assert!(contains_text("SHRGB1C", "RGB"));
    assert!(contains_text("RGB", "RGB"));
    assert!(!contains_text("RG", "RGB"));
    assert!(!contains_text("SHTW", "DH"));
    assert!(contains_text("anything", ""));
}

#[test]
fn text_before_separator() {
    assert_eq!(text_before("192.168.1.4/24", '/'), "192.168.1.4");
    assert_eq!(text_before("fe80::1", '/'), "fe80::1");
    assert_eq!(text_before("/8", '/'), "");
}

#[test]
fn hex_pool() {
    let pool = mac_chars();
    assert_eq!(pool.concat(), "0123456789abcdef");
}

#[test]
fn random_mac_shape() {
    let mac = gen_mac();
    assert_eq!(mac.chars().count(), 12);
    assert!(mac.chars().all(|c| c.is_ascii_hexdigit() && !c.is_ascii_uppercase()));
    let mut cs: Vec<char> = mac.chars().collect();
    cs.sort();
    cs.dedup();
    assert_eq!(cs.len(), 12);
}

#[test]
fn push_registration_message() {
    let m = PushRegisterMessage::with_mac("10.0.0.5".to_string(), "0123456789ab".to_string());
    assert_eq!(m.method, "registration");
    assert_eq!(m.params.phone_ip, "10.0.0.5");
    assert!(m.params.register);
    assert_eq!(m.params.phone_mac, "0123456789ab");
    let m = PushRegisterMessage::new("10.0.0.6".to_string());
    assert_eq!(m.params.phone_mac.len(), 12);
    let p = RegParams::new("1.2.3.4".to_string(), false, "ff".to_string());
    assert!(!p.register);
    assert_eq!(p.phone_ip, "1.2.3.4");
}

#[test]
fn joining_digits() {
    let picks = vec!["a".to_string(), "0".to_string(), "f3".to_string()];
    assert_eq!(join_digits(&picks), "a0f3");
    assert_eq!(join_digits(&vec![]), "");
}
