use base64::Engine;
use chancela_api::collection_page::{
    apply_keyset, decode_cursor, encode_cursor, envelope_to_json, fold_search, invalid_cursor, position_is_before,
    query_fingerprint, CollectionPage, CollectionPageQuery, CursorEnvelope, CursorPosition, CURSOR_VERSION,
    DEFAULT_PAGE_LIMIT, MAX_CURSOR_BYTES, MAX_PAGE_LIMIT,
};
use chancela_api::error::ApiErrorKind;
use sha2::{Digest, Sha256};

/// Read a cursor envelope from its JSON bytes, refusing anything that is not exactly one.
fn parse_envelope(bytes: &[u8]) -> Option<CursorEnvelope> {
    let v: serde_json::Value = serde_json::from_slice(bytes).ok()?;
    let obj = v.as_object()?;
    if obj.len() != 5 {
        return None;
    }
    let pos = obj.get("position")?.as_object()?;
    if pos.len() != 2 {
        return None;
    }
    Some(CursorEnvelope {
        version: u8::try_from(obj.get("version")?.as_u64()?).ok()?,
        collection: obj.get("collection")?.as_str()?.to_owned(),
        fingerprint: obj.get("fingerprint")?.as_str()?.to_owned(),
        position: CursorPosition::new(pos.get("key")?.as_str()?, pos.get("id")?.as_str()?),
        integrity: obj.get("integrity")?.as_str()?.to_owned(),
    })
}

fn fp(q: &str) -> String {
    query_fingerprint(vec![("q", q.to_owned()), ("sort", "username".to_owned()), ("order", "asc".to_owned())])
}

#[test]
fn page_is_bounded_and_exposes_only_the_next_offset() {
    let page = CollectionPage::from_sorted((0..10).collect::<Vec<_>>(), 3, 4);
    assert_eq!(page.items, vec![3, 4, 5, 6]);
    assert!(page.has_more);
    assert_eq!(page.next_offset, Some(7));
    let tail = CollectionPage::from_sorted((0..10).collect::<Vec<_>>(), 8, 4);
    assert_eq!(tail.items, vec![8, 9]);
    assert!(!tail.has_more);
    assert_eq!(tail.next_offset, None);
    let past = CollectionPage::from_sorted((0..3).collect::<Vec<_>>(), 9, 4);
    assert!(past.items.is_empty() && !past.has_more);
}

#[test]
fn page_limit_has_a_hard_server_ceiling() {
    let query = CollectionPageQuery { limit: Some(usize::MAX), ..CollectionPageQuery::default() };
    assert_eq!(query.limit(), MAX_PAGE_LIMIT);
    let zero = CollectionPageQuery { limit: Some(0), ..CollectionPageQuery::default() };
    assert_eq!(zero.limit(), 1);
    assert_eq!(CollectionPageQuery::default().limit(), DEFAULT_PAGE_LIMIT);
}

#[test]
fn keyset_cursor_is_strictly_bound_and_rejects_corruption() {
    let fingerprint = fp("joao");
    let position = CursorPosition::new("joao", "00000000-0000-0000-0000-000000000000");
    let encoded = encode_cursor("users", &fingerprint, &position);
    assert_eq!(decode_cursor(&encoded, "users", &fingerprint, parse_envelope).unwrap(), position);
    assert!(decode_cursor(&encoded, "books", &fingerprint, parse_envelope).is_err());
    assert!(decode_cursor(&encoded, "users", &fp("maria"), parse_envelope).is_err());
    let mut corrupted = encoded.into_bytes();
    let last = corrupted.last_mut().expect("non-empty cursor");
    *last = if *last == b'A' { b'B' } else { b'A' };
    assert!(decode_cursor(std::str::from_utf8(&corrupted).unwrap(), "users", &fingerprint, parse_envelope).is_err());
}

#[test]
fn a_cursor_is_base64url_json_of_its_envelope() {
    let fingerprint = fp("a");
    let position = CursorPosition::new("k\"ey", "id\\1");
    let encoded = encode_cursor("books", &fingerprint, &position);
    let bytes = base64::engine::general_purpose::URL_SAFE_NO_PAD.decode(&encoded).expect("base64url");
    let envelope = parse_envelope(&bytes).expect("json envelope");
    assert_eq!(envelope.version, CURSOR_VERSION);
    assert_eq!(envelope.collection, "books");
    assert_eq!(envelope.fingerprint, fingerprint);
    assert_eq!(envelope.position, position);
    assert_eq!(envelope_to_json(&envelope).into_bytes(), bytes);
    let reparsed: serde_json::Value = serde_json::from_slice(&bytes).unwrap();
    assert_eq!(reparsed["position"]["key"].as_str(), Some("k\"ey"));
}

#[test]
fn a_tampered_integrity_or_unparseable_cursor_is_refused_alike() {
    let fingerprint = fp("a");
    let position = CursorPosition::new("x", "1");
    let encoded = encode_cursor("users", &fingerprint, &position);
    let bytes = base64::engine::general_purpose::URL_SAFE_NO_PAD.decode(&encoded).unwrap();
    let mut envelope = parse_envelope(&bytes).unwrap();
    envelope.position = CursorPosition::new("y", "1");
    let forged = base64::engine::general_purpose::URL_SAFE_NO_PAD.encode(envelope_to_json(&envelope));
    let e = decode_cursor(&forged, "users", &fingerprint, parse_envelope).unwrap_err();
    assert_eq!(e, invalid_cursor());
    assert_eq!(e.kind, ApiErrorKind::Unprocessable);
    assert!(decode_cursor("", "users", &fingerprint, parse_envelope).is_err());
    assert!(decode_cursor("!!!", "users", &fingerprint, parse_envelope).is_err());
    let long = "A".repeat(MAX_CURSOR_BYTES + 1);
    assert!(decode_cursor(&long, "users", &fingerprint, |_: &[u8]| None).is_err());
    let not_json = base64::engine::general_purpose::URL_SAFE_NO_PAD.encode(b"not json");
    assert!(decode_cursor(&not_json, "users", &fingerprint, parse_envelope).is_err());
}

#[test]
fn keyset_uses_the_id_tiebreaker_in_both_orders() {
    let mut ascending =
        vec![CursorPosition::new("same", "1"), CursorPosition::new("same", "2"), CursorPosition::new("same", "3")];
    apply_keyset(&mut ascending, Some(&CursorPosition::new("same", "1")), false, Clone::clone);
    assert_eq!(ascending, vec![CursorPosition::new("same", "2"), CursorPosition::new("same", "3")]);
    let mut descending =
        vec![CursorPosition::new("same", "3"), CursorPosition::new("same", "2"), CursorPosition::new("same", "1")];
    apply_keyset(&mut descending, Some(&CursorPosition::new("same", "3")), true, Clone::clone);
    assert_eq!(descending, vec![CursorPosition::new("same", "2"), CursorPosition::new("same", "1")]);
    let mut untouched = vec![CursorPosition::new("a", "1")];
    apply_keyset(&mut untouched, None, false, Clone::clone);
    assert_eq!(untouched.len(), 1);
}

#[test]
fn position_order_matches_the_derived_order() {
    let pairs = [("a", "2", "b", "1"), ("a", "1", "a", "2"), ("a", "2", "a", "1"), ("b", "1", "a", "9"), ("é", "1", "z", "1")];
    for (k1, i1, k2, i2) in pairs {
        let a = CursorPosition::new(k1, i1);
        let b = CursorPosition::new(k2, i2);
        assert_eq!(position_is_before(&a, &b), a < b, "{a:?} vs {b:?}");
    }
}

#[test]
fn cursor_and_nonzero_offset_are_rejected() {
    let query = CollectionPageQuery { cursor: Some("opaque".to_owned()), offset: 1, ..CollectionPageQuery::default() };
    let e = query.cursor("users", "fingerprint", parse_envelope).unwrap_err();
    assert_eq!(e.message, "cursor and a non-zero offset are mutually exclusive");
    assert_eq!(CollectionPageQuery::default().cursor("users", "f", parse_envelope), Ok(None));
}

#[test]
fn order_parses_asc_and_desc_only() {
    let q = |o: Option<&str>| CollectionPageQuery { order: o.map(str::to_owned), ..CollectionPageQuery::default() };
    assert_eq!(q(None).descending(), Ok(false));
    assert_eq!(q(Some("asc")).descending(), Ok(false));
    assert_eq!(q(Some("desc")).descending(), Ok(true));
    let e = q(Some("up")).descending().unwrap_err();
    assert_eq!(e.message, "unknown order \"up\": expected \"asc\" or \"desc\"");
}

#[test]
fn search_folds_accents_and_case() {
    assert_eq!(fold_search("João"), "joao");
    assert_eq!(fold_search("ÉVORA Ação"), "evora acao");
    assert_eq!(fold_search("plain"), "plain");
    let q = CollectionPageQuery { q: Some("  João  ".to_owned()), ..CollectionPageQuery::default() };
    assert_eq!(q.normalized_search().as_deref(), Some("joao"));
    let blank = CollectionPageQuery { q: Some("   ".to_owned()), ..CollectionPageQuery::default() };
    assert_eq!(blank.normalized_search(), None);
}

#[test]
fn fingerprint_sorts_fields_and_frames_lengths() {
    let a = query_fingerprint(vec![("sort", "x".to_owned()), ("q", "y".to_owned())]);
    let b = query_fingerprint(vec![("q", "y".to_owned()), ("sort", "x".to_owned())]);
    assert_eq!(a, b, "field order does not matter");
    assert_ne!(a, query_fingerprint(vec![("q", "yx".to_owned()), ("sort", "".to_owned())]));
    let mut digest = Sha256::new();
    for (name, value) in [("q", "y"), ("sort", "x")] {
        digest.update(name.len().to_be_bytes());
        digest.update(name.as_bytes());
        digest.update(value.len().to_be_bytes());
        digest.update(value.as_bytes());
    }
    let expected: String = digest.finalize().iter().map(|x| format!("{x:02x}")).collect();
    assert_eq!(a, expected);
}

#[test]
fn keyset_pages_issue_the_cursor_of_their_last_row() {
    let rows: Vec<CursorPosition> = (0..5).map(|i| CursorPosition::new("k", &format!("{i}"))).collect();
    let page = CollectionPage::from_keyset_sorted(rows, 0, 2, true, "users", "f", Clone::clone);
    assert_eq!(page.items.len(), 2);
    assert!(page.has_more);
    assert_eq!(page.next_offset, None);
    let next = page.next_cursor.clone().expect("a next cursor");
    assert_eq!(decode_cursor(&next, "users", "f", parse_envelope), Ok(CursorPosition::new("k", "1")));
    let mapped = page.map(|p| p.id);
    assert_eq!(mapped.items, vec!["0".to_owned(), "1".to_owned()]);
}
