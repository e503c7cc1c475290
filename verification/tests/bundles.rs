use chancela_api::bundles::{
    check_bundle_size, import_policy_code, import_preflight_view, import_verdict_view, invalid_import_preflight_view,
    parse_policy, storage_required, successor_book_id, BundleOperation, ChainBreak, CollisionPolicy, ImportPreflight,
    ImportVerdict, BOOK_IMPORT_BUNDLE_MAX_BYTES,
};
use chancela_api::error::ApiErrorKind;
use uuid::Uuid;

fn preflight(verdict: ImportVerdict, collided: bool, policy: CollisionPolicy) -> ImportPreflight {
    ImportPreflight {
        verdict,
        collided,
        policy,
        entity_id: "e".to_owned(),
        book_id: "b".to_owned(),
        source_instance_id: "src".to_owned(),
        bundle_digest: "d".to_owned(),
        manifest_file_count: 3,
        manifest_total_bytes: 1024,
        zip_member_count: 4,
        event_count: Some(7),
        book_chain_length: 7,
        signature_present: true,
    }
}

#[test]
fn collision_policy_parses_known_names_only() {
    assert_eq!(parse_policy(None), Ok(CollisionPolicy::Refuse));
    assert_eq!(parse_policy(Some("  ")), Ok(CollisionPolicy::Refuse));
    assert_eq!(parse_policy(Some("refuse")), Ok(CollisionPolicy::Refuse));
    assert_eq!(parse_policy(Some(" quarantine ")), Ok(CollisionPolicy::QuarantineCopy));
    assert_eq!(parse_policy(Some("QuarantineCopy")), Ok(CollisionPolicy::QuarantineCopy));
    let e = parse_policy(Some("merge")).unwrap_err();
    assert_eq!(e.kind, ApiErrorKind::Unprocessable);
    assert_eq!(e.message, "política de colisão desconhecida \"merge\" (use refuse | quarantine_copy)");
    assert_eq!(import_policy_code(CollisionPolicy::QuarantineCopy), "quarantine_copy");
}

#[test]
fn bundle_size_is_bounded() {
    assert_eq!(check_bundle_size(0).unwrap_err().message, "corpo do pacote vazio");
    assert!(check_bundle_size(1).is_ok());
    assert!(check_bundle_size(BOOK_IMPORT_BUNDLE_MAX_BYTES).is_ok());
    let e = check_bundle_size(BOOK_IMPORT_BUNDLE_MAX_BYTES + 1).unwrap_err();
    assert_eq!(e.message, "pacote do livro tem 67108865 bytes; o limite é 67108864 bytes");
}

#[test]
fn bundle_operations_need_durable_storage() {
    for op in [BundleOperation::Export, BundleOperation::Preflight, BundleOperation::Import, BundleOperation::StartOver] {
        let e = storage_required(op);
        assert_eq!(e.kind, ApiErrorKind::Unprocessable);
        assert_eq!(e.code, None);
        assert!(e.message.ends_with("requer persistência em disco"));
    }
    assert_eq!(storage_required(BundleOperation::Export).message, "exportação requer persistência em disco");
}

#[test]
fn a_verified_uncollided_preflight_is_ready() {
    let v = import_preflight_view(preflight(ImportVerdict::Verified, false, CollisionPolicy::Refuse));
    assert!(v.ok && v.ready && v.would_import);
    assert_eq!(v.policy, "refuse");
    assert!(v.errors.is_empty());
    assert_eq!(v.book_chain_verified, Some(true));
}

#[test]
fn a_collision_under_refuse_is_not_ready() {
    let v = import_preflight_view(preflight(ImportVerdict::Verified, true, CollisionPolicy::Refuse));
    assert!(!v.ready && !v.would_import);
    assert!(!v.errors.is_empty());
    let q = import_preflight_view(preflight(ImportVerdict::Verified, true, CollisionPolicy::QuarantineCopy));
    assert!(q.ready);
}

#[test]
fn a_broken_chain_is_reported_with_its_break() {
    let broken = ImportVerdict::Quarantined { break_: ChainBreak { message: "seq 3 broken".to_owned() } };
    let view = import_verdict_view(&broken);
    assert_eq!(view.status, "Quarantined");
    assert_eq!(view.break_.unwrap().message, "seq 3 broken");
    assert_eq!(import_verdict_view(&ImportVerdict::Verified).status, "Verified");
    let v = import_preflight_view(preflight(broken, false, CollisionPolicy::Refuse));
    assert_eq!(v.book_chain_verified, Some(false));
}

#[test]
fn an_unreadable_bundle_previews_as_not_ready() {
    let v = invalid_import_preflight_view(CollisionPolicy::QuarantineCopy, "not a zip".to_owned());
    assert!(!v.ok && !v.ready && !v.would_import);
    assert_eq!(v.policy, "quarantine_copy");
    assert_eq!(v.errors, vec!["invalid bundle: not a zip".to_owned()]);
    assert_eq!(v.findings.len(), 2);
    assert_eq!(v.next_step, "choose a readable chancela-book-bundle/v1 zip and run preflight again");
}

#[test]
fn a_restart_must_name_a_uuid_successor() {
    let id = Uuid::new_v4();
    assert_eq!(successor_book_id(&Some(id.to_string())), Ok(id.as_u128()));
    let e = successor_book_id(&None).unwrap_err();
    assert_eq!((e.kind, e.message.as_str()), (ApiErrorKind::Internal, "start-over did not return a successor id"));
    assert!(successor_book_id(&Some("nope".to_owned())).is_err());
}
