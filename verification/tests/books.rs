use chancela_api::books::{
    acts_in_ata_order, book_page_position, check_books_query, contains_text, join_words, legal_hold_operator_workflow,
    list_books_page, one_shot_open_gates, resolve_kind_label, trimmed_non_blank, two_phase_close_gate, two_phase_signing_orders,
    BookCandidate, BookKind, BookPageItemView, BookState, BookSummary, BooksPageQuery, LegalHold, LegalHoldView,
    SetLegalHoldRequest,
};
use chancela_api::collection_page::{CursorEnvelope, CursorPosition};
use chancela_api::error::{ApiError, ApiErrorKind};

fn no_parse(_: &[u8]) -> Option<CursorEnvelope> {
    None
}

fn book(id: &str, kind: BookKind, state: BookState) -> BookCandidate {
    BookCandidate {
        item: BookPageItemView {
            book: BookSummary {
                id: id.to_owned(),
                entity_id: "e1".to_owned(),
                kind,
                state,
                last_ata_number: 0,
                purpose: None,
                opening_date: None,
                closing_date: None,
                predecessor: None,
                signatory_words: Vec::new(),
            },
            entity_name: Some("Encosto Estratégico Lda".to_owned()),
            kind_label: None,
        },
        readable: true,
        has_predecessor: false,
        opening_day: None,
    }
}

fn query() -> BooksPageQuery {
    BooksPageQuery {
        q: None,
        offset: 0,
        cursor: None,
        limit: None,
        sort: None,
        order: None,
        entity_id: None,
        kind: None,
        state: None,
        activity: None,
        lineage: None,
        opened_from: None,
        opened_to: None,
    }
}

fn candidates() -> Vec<BookCandidate> {
    vec![
        book("b-1", BookKind::AssembleiaGeral, BookState::Created),
        book("b-2", BookKind::AssembleiaGeral, BookState::Created),
        book("b-3", BookKind::ConselhoFiscal, BookState::Open),
    ]
}

#[test]
fn books_page_applies_enum_filters_before_offset_and_is_bounded() {
    let q = BooksPageQuery {
        kind: Some(BookKind::AssembleiaGeral),
        state: Some(BookState::Created),
        sort: Some("id".to_owned()),
        offset: 1,
        limit: Some(1),
        ..query()
    };
    let page = list_books_page(&q, candidates(), Ok(None), Ok(None), no_parse).unwrap();
    assert_eq!(page.items.len(), 1);
    assert_eq!(page.items[0].book.id, "b-2");
    assert!(!page.has_more);

    let q = BooksPageQuery { q: Some("assembleia geral".to_owned()), limit: Some(10), ..query() };
    assert_eq!(list_books_page(&q, candidates(), Ok(None), Ok(None), no_parse).unwrap().items.len(), 2);

    let q = BooksPageQuery { q: Some("aberto".to_owned()), limit: Some(10), ..query() };
    let page = list_books_page(&q, candidates(), Ok(None), Ok(None), no_parse).unwrap();
    assert_eq!(page.items.len(), 1);
    assert_eq!(page.items[0].book.state, BookState::Open);
}

#[test]
fn books_page_hides_unreadable_books_and_sorts_descending() {
    let mut cs = candidates();
    cs[0].readable = false;
    let q = BooksPageQuery { order: Some("desc".to_owned()), ..query() };
    let page = list_books_page(&q, cs, Ok(None), Ok(None), no_parse).unwrap();
    let ids: Vec<&str> = page.items.iter().map(|v| v.book.id.as_str()).collect();
    assert_eq!(ids, vec!["b-3", "b-2"]);
}

#[test]
fn books_page_refuses_unknown_sorts_filters_and_bad_bounds() {
    let e = list_books_page(&BooksPageQuery { sort: Some("title".to_owned()), ..query() }, candidates(), Ok(None), Ok(None), no_parse)
        .unwrap_err();
    assert_eq!(e.kind, ApiErrorKind::Unprocessable);
    assert!(check_books_query(&BooksPageQuery { activity: Some("busy".to_owned()), ..query() }).is_err());
    assert!(check_books_query(&BooksPageQuery { lineage: Some("x".to_owned()), ..query() }).is_err());
    assert!(check_books_query(&BooksPageQuery { order: Some("sideways".to_owned()), ..query() }).is_err());
    assert_eq!(check_books_query(&BooksPageQuery { order: Some("desc".to_owned()), ..query() }), Ok(true));
    assert_eq!(check_books_query(&query()), Ok(false));
    let bad = chancela_api::error::ApiError::new(ApiErrorKind::Unprocessable, "bad date".to_owned());
    assert_eq!(list_books_page(&query(), candidates(), Err(bad.clone()), Ok(None), no_parse).unwrap_err(), bad);
    let cursored = BooksPageQuery { cursor: Some("x".to_owned()), offset: 1, ..query() };
    assert!(list_books_page(&cursored, candidates(), Ok(None), Ok(None), no_parse).is_err());
}

#[test]
fn book_search_helpers() {
    assert_eq!(join_words(&vec!["a".to_owned(), "b c".to_owned(), "d".to_owned()]), "a b c d");
    assert_eq!(join_words(&Vec::new()), "");
    assert!(contains_text("assembleia geral", "geral"));
    assert!(contains_text("abc", ""));
    assert!(!contains_text("abc", "abd"));
    let v = book("b-9", BookKind::Condominio, BookState::Closed).item;
    assert_eq!(book_page_position(&v, "id"), CursorPosition::new("b-9", "b-9"));
    assert_eq!(book_page_position(&v, "kind"), CursorPosition::new("Condominio", "b-9"));
    assert_eq!(book_page_position(&v, "state"), CursorPosition::new("Closed", "b-9"));
}

#[test]
fn kind_labels_and_two_phase_rules() {
    assert_eq!(trimmed_non_blank(&Some("  x ".to_owned())).as_deref(), Some("x"));
    assert_eq!(trimmed_non_blank(&Some("  ".to_owned())), None);
    assert_eq!(resolve_kind_label(BookKind::Other, Some(" Livro de Reuniões ".to_owned())), Ok(Some("Livro de Reuniões".to_owned())));
    assert!(resolve_kind_label(BookKind::Other, None).is_err());
    assert_eq!(two_phase_signing_orders(&vec![true, true, true]), Ok(vec![0, 1, 2]));
    let e = two_phase_signing_orders(&vec![true, false, false]).unwrap_err();
    assert_eq!(e.message, "required_signatories[1].capacity is required for the two-phase signing workflow");
    assert!(two_phase_close_gate(BookState::Open).is_ok());
    let e = two_phase_close_gate(BookState::Created).unwrap_err();
    assert_eq!((e.kind, e.code), (ApiErrorKind::Conflict, Some("book_not_open")));
}

#[test]
fn legal_holds_block_disposal_review_and_claim_nothing() {
    let req = SetLegalHoldRequest { reason: "  litígio pendente ".to_owned(), actor: "amelia".to_owned() };
    assert_eq!(req.validated_reason(), Ok("litígio pendente".to_owned()));
    let blank = SetLegalHoldRequest { reason: " ".to_owned(), actor: "amelia".to_owned() };
    assert_eq!(blank.validated_reason().unwrap_err().message, "legal hold reason must not be empty");
    let hold = LegalHold { reason: "r".to_owned(), actor: "a".to_owned(), set_at: "2026-01-01T00:00:00Z".to_owned() };
    let v = LegalHoldView::from_hold(Some(&hold));
    assert!(v.legal_hold && v.operator_workflow.disposal_review_blocked);
    assert_eq!(v.operator_workflow.status, "blocked_by_legal_hold");
    let none = LegalHoldView::from_hold(None);
    assert!(!none.legal_hold && none.reason.is_none());
    let w = legal_hold_operator_workflow(false);
    assert_eq!(w.status, "advisory_only");
    assert!(!w.disposal_approved && !w.legal_compliance_claimed && !w.destructive_disposal_completed);
}

#[test]
fn acts_are_listed_by_ata_number_with_unnumbered_last() {
    assert_eq!(acts_in_ata_order(&vec![Some(3), None, Some(1), Some(3), None]), vec![2, 0, 3, 1, 4]);
    assert_eq!(acts_in_ata_order(&Vec::new()), Vec::<usize>::new());
}

#[test]
fn a_one_shot_open_checks_the_date_before_the_entity_and_the_entity_before_its_archive_state() {
    let bad_date = || Err(ApiError::new(ApiErrorKind::Unprocessable, "invalid date".to_owned()));
    let bad_people = || Err(ApiError::new(ApiErrorKind::Unprocessable, "bad signatories".to_owned()));
    let bad_layout = || Err(ApiError::new(ApiErrorKind::Unprocessable, "bad layout".to_owned()));
    // A malformed date is a 422 even when the entity is unknown.
    let e = one_shot_open_gates(bad_date(), bad_people(), None, Ok(()), BookKind::Condominio, None).unwrap_err();
    assert_eq!(e.message, "invalid date");
    let e = one_shot_open_gates(Ok(()), bad_people(), None, Ok(()), BookKind::Condominio, None).unwrap_err();
    assert_eq!(e.message, "bad signatories");
    // Then the entity: unknown is a 404, archived a conflict naming it.
    let e = one_shot_open_gates(Ok(()), Ok(()), None, bad_layout(), BookKind::Condominio, None).unwrap_err();
    assert_eq!(e.kind, ApiErrorKind::NotFound);
    let e = one_shot_open_gates(Ok(()), Ok(()), Some((true, "e1", "Acme")), bad_layout(), BookKind::Condominio, None)
        .unwrap_err();
    assert_eq!(e.kind, ApiErrorKind::Conflict);
    assert!(e.message.starts_with("entity e1 (Acme) is archived: no new book can be opened on it."));
    // Then the layout, and last the kind label.
    let e = one_shot_open_gates(Ok(()), Ok(()), Some((false, "e1", "Acme")), bad_layout(), BookKind::Other, None)
        .unwrap_err();
    assert_eq!(e.message, "bad layout");
    let e = one_shot_open_gates(Ok(()), Ok(()), Some((false, "e1", "Acme")), Ok(()), BookKind::Other, None).unwrap_err();
    assert_eq!(e.message, "kind_label is required when kind is Other");
    let label = one_shot_open_gates(Ok(()), Ok(()), Some((false, "e1", "Acme")), Ok(()), BookKind::Other, Some("  Livro X ".to_owned()))
        .unwrap();
    assert_eq!(label.as_deref(), Some("Livro X"));
}
