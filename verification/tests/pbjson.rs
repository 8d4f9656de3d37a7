use ak_platform::decimal::{i32_to_decimal, parse_i32, u64_to_decimal};
use ak_platform::pbjson::{
    enum_name, enum_value_of_int, enum_value_of_str, find_field, resolve_keys, written_names, EnumValue,
    FieldError, FieldName,
};
use ak_platform::pbjson_tables::{enum_names, enum_variant_of_str, message_fields, EnumKind, MessageKind};

fn keys(ks: &[&str]) -> Vec<(String, bool)> {
    ks.iter().map(|k| (k.to_string(), false)).collect()
}

fn entries(ks: &[(&str, bool)]) -> Vec<(String, bool)> {
    ks.iter().map(|(k, null)| (k.to_string(), *null)).collect()
}

#[test]
fn state_session_table() {
    let t = message_fields(MessageKind::StateSession);
    assert_eq!(t.len(), 9);
    assert_eq!(t[2].json, "tokenHash");
    assert_eq!(t[2].proto, "token_hash");
    assert_eq!(find_field(&t, "local_socket"), Some(7));
    assert_eq!(find_field(&t, "localSocket"), Some(7));
    assert_eq!(find_field(&t, "nope"), None);
}

#[test]
fn keys_resolve_in_order() {
    let t = message_fields(MessageKind::StateSession);
    let fields = resolve_keys(&t, &keys(&["opened", "token_hash", "id"])).unwrap();
    assert_eq!(fields, vec![8, 2, 0]);
    assert_eq!(resolve_keys(&t, &keys(&[])).unwrap(), Vec::<usize>::new());
}

#[test]
fn unknown_and_duplicate_keys_are_rejected() {
    let t = message_fields(MessageKind::StateSession);
    match resolve_keys(&t, &keys(&["id", "bogus", "id"])) {
        Err(FieldError::Unknown(k)) => assert_eq!(k, "bogus"),
        _ => panic!("expected an unknown key"),
    }
    match resolve_keys(&t, &keys(&["tokenHash", "pid", "token_hash"])) {
        Err(FieldError::Duplicate(n)) => assert_eq!(n, "tokenHash"),
        _ => panic!("expected a duplicate field"),
    }
}

#[test]
fn written_keys_read_back() {
    let t = message_fields(MessageKind::InteractiveChallenge);
    let present = vec![true, false, true, false, true, false, true, false];
    let names = written_names(&t, &present);
    assert_eq!(names, vec!["txid", "result", "promptMeta", "sessionId"]);
    let read: Vec<(String, bool)> = names.into_iter().map(|n| (n, false)).collect();
    assert_eq!(resolve_keys(&t, &read).unwrap(), vec![0, 2, 4, 6]);
}

#[test]
fn every_table_uses_camel_case_json_names() {
    let kinds = [
        MessageKind::ListProfilesResponse,
        MessageKind::Profile,
        MessageKind::SetupRequest,
        MessageKind::PingResponse,
        MessageKind::RegisterDeviceResponse,
        MessageKind::Users,
    ];
    for kind in kinds {
        for f in message_fields(kind) {
            assert!(!f.json.contains('_'), "{} has an underscore", f.json);
        }
    }
    assert_eq!(message_fields(MessageKind::RegisterDeviceResponse).len(), 8);
}

fn capability_values() -> Vec<EnumValue> {
    ["UNSPECIFIED", "AUTH_INTERACTIVE", "AUTH_AUTHZ", "DEBUG"]
        .iter()
        .enumerate()
        .map(|(i, n)| EnumValue { name: n.to_string(), value: i as i32 })
        .collect()
}

#[test]
fn enum_names_and_numbers() {
    let v = capability_values();
    assert_eq!(enum_name(&v, 2), Some("AUTH_AUTHZ".to_string()));
    assert_eq!(enum_name(&v, 9), None);
    assert_eq!(enum_value_of_str(&v, "DEBUG"), Some(3));
    assert_eq!(enum_value_of_str(&v, "debug"), None);
    assert_eq!(enum_value_of_int(&v, 1), Some(1));
    assert_eq!(enum_value_of_int(&v, 4), None);
    assert_eq!(enum_value_of_int(&v, 1 << 40), None);
    let pam = vec![
        EnumValue { name: "PAM_SUCCESS".to_string(), value: 0 },
        EnumValue { name: "PAM_PERM_DENIED".to_string(), value: 6 },
    ];
    assert_eq!(enum_value_of_str(&pam, "PAM_PERM_DENIED"), Some(6));
    assert_eq!(enum_name(&pam, 6), Some("PAM_PERM_DENIED".to_string()));
    assert_eq!(enum_value_of_int(&pam, 1), None);
}

#[test]
fn decimal_text() {
    assert_eq!(i32_to_decimal(-42), "-42");
    assert_eq!(i32_to_decimal(i32::MIN), "-2147483648");
    assert_eq!(u64_to_decimal(0), "0");
    assert_eq!(u64_to_decimal(u64::MAX), "18446744073709551615");
    assert_eq!(parse_i32("+17"), Some(17));
    assert_eq!(parse_i32("2147483648"), None);
    assert_eq!(parse_i32("-2147483648"), Some(i32::MIN));
    assert_eq!(parse_i32(""), None);
    let _unused = FieldName { json: "a".to_string(), proto: "a".to_string(), slot: 0, nullable: false };
}

#[test]
fn null_message_fields_leave_their_slot_empty() {
    let t = message_fields(MessageKind::StateSession);
    assert!(t[3].nullable && t[6].nullable && !t[0].nullable);
    assert_eq!(resolve_keys(&t, &entries(&[("expiresAt", true), ("expiresAt", true)])).unwrap(), vec![3, 3]);
    assert_eq!(resolve_keys(&t, &entries(&[("expiresAt", true), ("expires_at", false)])).unwrap(), vec![3, 3]);
    match resolve_keys(&t, &entries(&[("expiresAt", false), ("expiresAt", true)])) {
        Err(FieldError::Duplicate(n)) => assert_eq!(n, "expiresAt"),
        _ => panic!("expected a duplicate field"),
    }
    match resolve_keys(&t, &entries(&[("id", true), ("id", true)])) {
        Err(FieldError::Duplicate(n)) => assert_eq!(n, "id"),
        _ => panic!("expected a duplicate field"),
    }
}

#[test]
fn oneof_members_share_one_slot() {
    let t = message_fields(MessageKind::InteractiveAuthRequest);
    assert_eq!((t[0].slot, t[1].slot), (0, 0));
    match resolve_keys(&t, &entries(&[("init", false), ("continue", false)])) {
        Err(FieldError::Duplicate(n)) => assert_eq!(n, "continue"),
        _ => panic!("expected a duplicate field"),
    }
    assert_eq!(resolve_keys(&t, &entries(&[("init", true), ("continue", false)])).unwrap(), vec![0, 1]);
    let g = message_fields(MessageKind::GetRequest);
    assert_eq!(resolve_keys(&g, &entries(&[("name", true), ("name", false), ("id", false)])).unwrap(), vec![1, 1, 0]);
}

#[test]
fn enum_tables_name_their_values() {
    assert_eq!(enum_names(EnumKind::Capability), vec!["UNSPECIFIED", "AUTH_INTERACTIVE", "AUTH_AUTHZ", "DEBUG"]);
    assert_eq!(enum_names(EnumKind::InteractiveAuthResult).len(), 3);
    assert_eq!(enum_names(EnumKind::PromptMeta)[7], "PASSWORD");
    assert_eq!(enum_variant_of_str(EnumKind::InteractiveAuthResult, "PAM_AUTH_ERR"), Some(2));
    assert_eq!(enum_variant_of_str(EnumKind::PromptMeta, "PAM_TEXT_INFO"), Some(4));
    assert_eq!(enum_variant_of_str(EnumKind::Capability, "debug"), None);
}
