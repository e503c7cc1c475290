use chancela_api::cmd_phone::{
    custody_secret, save_decision, validate_phone, SaveCmdPhone, SavedCmdPhone, SavedCmdPhoneStore,
    SavedCmdPhoneView, SealedSecret, CMD_PHONE_INVALID_CODE, CMD_PHONE_NO_UNLOCKED_KEY_CODE,
    CMD_SAVED_PHONES_SCHEMA_VERSION, MAX_PHONE_CHARS,
};
use chancela_api::cmd_phone::{no_unlocked_key, unreadable_phone};
use chancela_api::error::ApiErrorKind;
use sha2::{Digest, Sha256};
use uuid::Uuid;

const FAKE_PHONE: &str = "+351 900 000 000";

fn row(fingerprint: &str) -> SavedCmdPhone {
    SavedCmdPhone {
        key_fingerprint: fingerprint.to_owned(),
        sealed: SealedSecret { kdf_salt: "salt".to_owned(), nonce: "nonce".to_owned(), ciphertext: "ct".to_owned() },
        saved_at: "2026-01-01T00:00:00Z".to_owned(),
    }
}

#[test]
fn validate_accepts_typed_shapes_and_refuses_the_rest() {
    assert_eq!(validate_phone("  +351 900 000 000 ").unwrap(), FAKE_PHONE);
    assert_eq!(validate_phone("+351-900-000-000").unwrap(), "+351-900-000-000");
    assert_eq!(validate_phone("(351) 900000000").unwrap(), "(351) 900000000");
    assert_eq!(validate_phone("900000000").unwrap(), "900000000");
    for bad in ["", "   ", "12345", "+351 900 000 000 ext. 4", "+351\n900000000", "9000000+00"] {
        assert!(validate_phone(bad).is_err(), "must refuse {bad:?}");
    }
    let too_long = format!("+{}", "9".repeat(MAX_PHONE_CHARS));
    assert!(validate_phone(&too_long).is_err());
    let e = validate_phone("abc").unwrap_err();
    assert_eq!(e.kind, ApiErrorKind::Unprocessable);
    assert_eq!(e.code, Some(CMD_PHONE_INVALID_CODE));
}

#[test]
fn custody_secret_is_derived_and_key_specific() {
    let a = [7u8; 32];
    let b = [8u8; 32];
    let secret = custody_secret(&a);
    assert_eq!(secret.len(), 64);
    assert_eq!(secret, custody_secret(&a), "derivation is deterministic");
    assert_ne!(secret, custody_secret(&b));
    let scalar_hex: String = a.iter().map(|x| format!("{x:02x}")).collect();
    assert!(!secret.contains(&scalar_hex));
    let mut hasher = Sha256::new();
    hasher.update(b"chancela.cmd.phone.custody.v1");
    hasher.update(a);
    let expected: String = hasher.finalize().iter().map(|x| format!("{x:02x}")).collect();
    assert_eq!(secret, expected);
}

#[test]
fn store_sanitize_drops_non_uuid_keys_and_malformed_rows() {
    let good_key = Uuid::new_v4().to_string();
    let empty_key = Uuid::new_v4().to_string();
    let mut empty = row("fp");
    empty.sealed = SealedSecret { kdf_salt: String::new(), nonce: String::new(), ciphertext: String::new() };
    let mut users = vec![
        (good_key.clone(), row("fp")),
        ("not-a-uuid".to_owned(), row("fp")),
        (empty_key.clone(), empty),
    ];
    users.sort_by(|x, y| x.0.cmp(&y.0));
    let store = SavedCmdPhoneStore { schema_version: 0, users };
    let clean = store.sanitized();
    assert_eq!(clean.schema_version, CMD_SAVED_PHONES_SCHEMA_VERSION);
    assert!(clean.users.iter().any(|(k, _)| *k == good_key));
    assert!(!clean.users.iter().any(|(k, _)| k == "not-a-uuid"));
    assert!(!clean.users.iter().any(|(k, _)| *k == empty_key));
    assert_eq!(clean.users.len(), 1);
}

#[test]
fn set_get_and_clear_are_keyed_by_user() {
    let alice = Uuid::new_v4();
    let bob = Uuid::new_v4();
    let mut store = SavedCmdPhoneStore::new();
    assert!(store.get(alice.as_u128()).is_none());
    store.set(alice.as_u128(), row("alice-key"));
    store.set(bob.as_u128(), row("bob-key"));
    assert_eq!(store.get(alice.as_u128()).unwrap().key_fingerprint, "alice-key");
    assert_eq!(store.get(bob.as_u128()).unwrap().key_fingerprint, "bob-key");
    store.set(alice.as_u128(), row("alice-key-2"));
    assert_eq!(store.users.len(), 2, "a second save replaces the row");
    assert_eq!(store.get(alice.as_u128()).unwrap().key_fingerprint, "alice-key-2");
    assert!(store.users.iter().any(|(k, _)| *k == alice.to_string()), "rows are keyed by the hyphenated id");
    assert!(store.clear(alice.as_u128()));
    assert!(!store.clear(alice.as_u128()), "clearing twice finds nothing");
    assert!(store.get(alice.as_u128()).is_none());
    assert_eq!(store.get(bob.as_u128()).unwrap().key_fingerprint, "bob-key");
    let keys: Vec<&String> = store.users.iter().map(|(k, _)| k).collect();
    let mut sorted = keys.clone();
    sorted.sort();
    assert_eq!(keys, sorted);
}

#[test]
fn a_session_with_no_unlocked_key_cannot_save() {
    let req = SaveCmdPhone { phone: Some(FAKE_PHONE.to_owned()) };
    let e = save_decision(&req, false).unwrap_err();
    assert_eq!(e.kind, ApiErrorKind::Forbidden);
    assert_eq!(e.code, Some(CMD_PHONE_NO_UNLOCKED_KEY_CODE));
    assert_eq!(e, no_unlocked_key());
    assert_eq!(save_decision(&req, true), Ok(Some(FAKE_PHONE.to_owned())));
    assert_eq!(save_decision(&SaveCmdPhone { phone: None }, false), Ok(None), "forgetting needs no key");
    let bad = save_decision(&SaveCmdPhone { phone: Some("12".to_owned()) }, true).unwrap_err();
    assert_eq!(bad.code, Some(CMD_PHONE_INVALID_CODE));
}

#[test]
fn the_account_view_shows_the_number_only_when_it_opened() {
    assert_eq!(SavedCmdPhoneView::of_saved(None, true, None), SavedCmdPhoneView::empty());
    let locked = SavedCmdPhoneView::of_saved(Some("t".to_owned()), false, Some(FAKE_PHONE.to_owned()));
    assert!(locked.saved && locked.phone.is_none() && !locked.readable);
    let open = SavedCmdPhoneView::of_saved(Some("t".to_owned()), true, Some(FAKE_PHONE.to_owned()));
    assert!(open.saved && open.readable);
    assert_eq!(open.phone.as_deref(), Some(FAKE_PHONE));
    let stale = SavedCmdPhoneView::of_saved(Some("t".to_owned()), true, None);
    assert!(stale.saved && !stale.readable);
    assert_eq!(unreadable_phone().kind, ApiErrorKind::Conflict);
}

#[test]
fn a_pre_existing_row_loads_unchanged() {
    let row = SavedCmdPhone {
        key_fingerprint: "0123456789abcdef0123456789abcdef".to_owned(),
        sealed: SealedSecret {
            kdf_salt: "c2FsdA==".to_owned(),
            nonce: "bm9uY2U=".to_owned(),
            ciphertext: "Y3Q=".to_owned(),
        },
        saved_at: "2026-01-01T00:00:00Z".to_owned(),
    };
    let store = SavedCmdPhoneStore {
        schema_version: 1,
        users: vec![("11111111-2222-3333-4444-555555555555".to_owned(), row)],
    };
    let clean = store.sanitized();
    assert_eq!(clean.users.len(), 1, "a well-formed row must not be dropped");
    let (key, row) = &clean.users[0];
    assert_eq!(key, "11111111-2222-3333-4444-555555555555");
    assert_eq!(row.saved_at, "2026-01-01T00:00:00Z");
    let id = Uuid::parse_str("11111111-2222-3333-4444-555555555555").unwrap();
    assert_eq!(clean.get(id.as_u128()).map(|r| r.saved_at.as_str()), Some("2026-01-01T00:00:00Z"));
}

#[test]
fn a_loaded_store_holds_one_row_per_key_in_ascending_order() {
    let a = "00000000-0000-0000-0000-00000000000a".to_owned();
    let b = "00000000-0000-0000-0000-00000000000b".to_owned();
    let store = SavedCmdPhoneStore {
        schema_version: 0,
        users: vec![(b.clone(), row("first")), (a.clone(), row("fp")), (b.clone(), row("second"))],
    };
    let clean = store.sanitized();
    let keys: Vec<&str> = clean.users.iter().map(|(k, _)| k.as_str()).collect();
    assert_eq!(keys, vec![a.as_str(), b.as_str()]);
    assert_eq!(clean.users[1].1.key_fingerprint, "second");
}
