use selinux::scon::check_no_nul;
use selinux::scon::interpret_raw_get;
use selinux::Error;
use selinux::SCon;

#[test]
fn raw_bytes_round_trip_unchanged() {
    let bytes = b"user_u:role_r:type_t:s0".to_vec();
    let scon = SCon::from_bytes(bytes.clone());
    assert_eq!(scon.as_bytes(), &bytes);
}

#[test]
fn raw_label_decodes_to_text() {
    let scon = SCon::from_bytes(b"user_u:role_r:type_t".to_vec());
    assert_eq!(scon.to_string().unwrap(), "user_u:role_r:type_t");
}

#[test]
fn invalid_utf8_is_a_decode_failure() {
    let scon = SCon::from_bytes(vec![0xff, 0xfe, 0x41]);
    assert_eq!(scon.to_string(), Err(Error::Utf8DecodeFailure));
}

#[test]
fn raw_getter_outcome_interpretation() {
    let fetched = interpret_raw_get(0, Some(b"label".to_vec()));
    assert_eq!(fetched.unwrap().as_bytes(), &b"label".to_vec());

    assert!(interpret_raw_get(-1, Some(b"label".to_vec())).is_none());
    assert!(interpret_raw_get(1, Some(b"label".to_vec())).is_none());
    assert!(interpret_raw_get(0, None).is_none());
}

#[test]
fn nul_bytes_are_detected() {
    assert!(check_no_nul("user_u:role_r:type_t"));
    assert!(check_no_nul(""));
    assert!(!check_no_nul("user\0u"));
    assert!(!check_no_nul("\0"));
}
