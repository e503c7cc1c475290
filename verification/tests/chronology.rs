use chancela_api::chronology::{
    act_is_before, act_node_id, act_node_label, build_sealed_act_projection, sealed_act_source, ActRecord, ActState,
    BookOwner, ChronologyAnalyticsView, ChronologyEvent, ChronologyEventView, ChronologyGraphAnalyticsView,
    ChronologyGraphCountView, ChronologyKind,
};

fn act(id: &str, book: &str, state: ActState, ata: Option<u64>, date: Option<&str>, title: &str) -> ActRecord {
    ActRecord {
        id: id.to_owned(),
        book_id: book.to_owned(),
        state,
        meeting_date: date.map(str::to_owned),
        ata_number: ata,
        title: title.to_owned(),
        retifies: None,
        payload_digest: Some([0xab; 32]),
        seal_event_seq: Some(4),
    }
}

fn owners() -> Vec<BookOwner> {
    vec![
        BookOwner { book_id: "book-1".to_owned(), entity_id: "ent-1".to_owned() },
        BookOwner { book_id: "book-x".to_owned(), entity_id: "ent-2".to_owned() },
    ]
}

#[test]
fn sealed_act_projection_adds_retification_event_and_edge_without_mutating_acts() {
    let original = act("act-201", "book-1", ActState::Sealed, Some(1), Some("2026-03-01"), "Deliberação original");
    let mut correction = act("act-202", "book-1", ActState::Sealed, Some(2), Some("2026-03-02"), "Termo de retificação");
    correction.retifies = Some("act-201".to_owned());
    let snapshot = correction.clone();
    let projection = build_sealed_act_projection("ent-1", &owners(), vec![correction, original]).expect("a projection");
    assert!(projection
        .events
        .iter()
        .any(|e| e.kind == "Correction" && e.source.act_id == snapshot.id));
    assert!(projection
        .graph
        .edges
        .iter()
        .any(|e| e.kind == "correction" && e.source.act_id == snapshot.id && e.to == "act:act-201"));
    assert!(projection.graph.edges.iter().all(|e| e.source.kind == "sealed_act"));
    assert!(projection.graph.edges.iter().any(|e| e.kind == "book_sequence" && e.from == "act:act-201" && e.to == "act:act-202"));
    assert_eq!(projection.provenance.len(), 2);
    assert_eq!(projection.graph.nodes[0].id, "act:act-201");
    assert!(!projection.legal_validity_claimed && !projection.authority_certified_claimed);
    assert_eq!(snapshot.retifies.as_deref(), Some("act-201"));
}

#[test]
fn only_sealed_or_archived_acts_of_the_entity_are_projected() {
    let acts = vec![
        act("a1", "book-1", ActState::Draft, Some(1), None, "draft"),
        act("a2", "book-x", ActState::Sealed, Some(1), None, "other entity"),
    ];
    assert!(build_sealed_act_projection("ent-1", &owners(), acts).is_none());
    let acts = vec![
        act("a3", "book-1", ActState::Archived, None, None, "  "),
        act("a4", "book-1", ActState::Sealed, Some(9), Some("2025-01-01"), "t"),
    ];
    let p = build_sealed_act_projection("ent-1", &owners(), acts).unwrap();
    assert_eq!(p.events.len(), 2);
    assert_eq!(p.events[0].act_id, "a3", "an undated act sorts first");
    assert_eq!(p.events[0].description, "Archived ata");
    assert_eq!(p.events[1].description, "Sealed ata n.º 9: t");
}

#[test]
fn act_order_and_labels() {
    let a = act("a", "b", ActState::Sealed, Some(1), Some("2026-01-01"), "");
    let b = act("b", "b", ActState::Sealed, Some(2), Some("2026-01-01"), "");
    assert!(act_is_before(&a, &b));
    assert!(!act_is_before(&b, &a));
    assert!(!act_is_before(&a, &a));
    assert_eq!(act_node_id("x1"), "act:x1");
    assert_eq!(act_node_label(&a), "Ata n.º 1");
    let src = sealed_act_source(&a);
    assert_eq!(src.kind, "sealed_act");
    assert_eq!(src.payload_digest.as_deref(), Some("ab".repeat(32).as_str()));
}

#[test]
fn analytics_count_kinds_dates_and_sources() {
    let ev = |date: Option<&str>, kind, src: &str| {
        ChronologyEventView::from_event(&ChronologyEvent {
            date: date.map(str::to_owned),
            kind,
            description: "d".to_owned(),
            source_inscription: src.to_owned(),
            actors: vec!["x".to_owned()],
        })
    };
    let events = vec![
        ev(Some("2020-01-01"), ChronologyKind::Designation, "Insc. 2"),
        ev(None, ChronologyKind::Constitution, "Insc. 1"),
        ev(Some("2021-01-01"), ChronologyKind::Designation, "Insc. 2"),
    ];
    assert_eq!(events[0].kind, "Designation");
    let g = ChronologyGraphCountView { nodes: 1, edges: 2, warnings: 0 };
    let graph = ChronologyGraphAnalyticsView { shareholders: g, organs: g, relationships: g };
    let a = ChronologyAnalyticsView::build(&events, graph);
    assert_eq!((a.total_events, a.dated_events, a.undated_events), (3, 2, 1));
    let kinds: Vec<(&str, usize)> = a.event_kinds.iter().map(|k| (k.kind.as_str(), k.count)).collect();
    assert_eq!(kinds, vec![("Constitution", 1), ("Designation", 2)]);
    assert_eq!(a.source_inscriptions, vec!["Insc. 2".to_owned(), "Insc. 1".to_owned()]);
    assert_eq!(a.source_inscription_count, 2);
}
