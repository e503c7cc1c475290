//! **Entity chronology**: the wire views of an entity's normalized registry timeline, the local
//! analytics over it, and the sealed-act projection built from the entity's own books.
//!
//! The analytics count events (dated and undated), count them per kind in kind order, and list the
//! distinct registry inscriptions in first-seen order. The sealed-act projection takes every
//! sealed or archived act of the entity's books, in a deterministic order (meeting date, ata
//! number, book, act), and turns each into a timeline event and a graph node; a rectifying act adds
//! a correction event and edge, and consecutive acts of one book are linked in sequence. It never
//! claims legal validity or authority certification.
use vstd::prelude::*;

use crate::collection_page::{chars_before, hex_encode, hex_lower, text_before};
use crate::error::{ApiError, ApiErrorKind};
use crate::sorting::{sort_stably, sorted_stably};
use crate::text::{chars_of, dec_nat, owned, push_str, string_from_chars, trim, trim_chars, u64_to_string};

verus! {

// =================================================================================================
// Registry timeline views and analytics
// =================================================================================================

/// The kind of a normalized registry event.
#[derive(Debug, Clone, Copy, PartialEq, Eq, Structural)]
pub enum ChronologyKind {
    Constitution,
    Designation,
    Cessation,
    CapitalChange,
    SeatChange,
    ObjectChange,
    QuotaTransfer,
    Dissolution,
    Other,
}

/// The wire name of a kind: its bare variant name.
pub open spec fn chronology_kind_name(kind: ChronologyKind) -> Seq<char> {
    match kind {
        ChronologyKind::Constitution => "Constitution"@,
        ChronologyKind::Designation => "Designation"@,
        ChronologyKind::Cessation => "Cessation"@,
        ChronologyKind::CapitalChange => "CapitalChange"@,
        ChronologyKind::SeatChange => "SeatChange"@,
        ChronologyKind::ObjectChange => "ObjectChange"@,
        ChronologyKind::QuotaTransfer => "QuotaTransfer"@,
        ChronologyKind::Dissolution => "Dissolution"@,
        ChronologyKind::Other => "Other"@,
    }
}

/// The wire name of a kind.
pub fn kind_name(kind: ChronologyKind) -> (r: &'static str)
    ensures
        r@ == chronology_kind_name(kind),
{
    match kind {
        ChronologyKind::Constitution => "Constitution",
        ChronologyKind::Designation => "Designation",
        ChronologyKind::Cessation => "Cessation",
        ChronologyKind::CapitalChange => "CapitalChange",
        ChronologyKind::SeatChange => "SeatChange",
        ChronologyKind::ObjectChange => "ObjectChange",
        ChronologyKind::QuotaTransfer => "QuotaTransfer",
        ChronologyKind::Dissolution => "Dissolution",
        ChronologyKind::Other => "Other",
    }
}

/// One normalized registry event.
#[derive(Debug, Clone)]
pub struct ChronologyEvent {
    pub date: Option<String>,
    pub kind: ChronologyKind,
    pub description: String,
    pub source_inscription: String,
    pub actors: Vec<String>,
}

/// Wire view of one timeline event; `kind` is the bare kind name and `source_inscription` the
/// registry entry the event traces to.
#[derive(Debug, Clone)]
pub struct ChronologyEventView {
    pub date: Option<String>,
    pub kind: String,
    pub description: String,
    pub source_inscription: String,
    pub actors: Vec<String>,
}

impl ChronologyEventView {
    /// The wire view of an event.
    pub fn from_event(e: &ChronologyEvent) -> (r: ChronologyEventView)
        ensures
            r.date == e.date,
            r.kind@ == chronology_kind_name(e.kind),
            r.description == e.description,
            r.source_inscription == e.source_inscription,
            r.actors@.len() == e.actors@.len(),
            forall|i: int| 0 <= i < r.actors@.len() ==> #[trigger] r.actors@[i] == e.actors@[i],
    {
        let mut actors: Vec<String> = Vec::new();
        let mut i: usize = 0;
        while i < e.actors.len()
            invariant
                0 <= i <= e.actors@.len(),
                actors@.len() == i,
                forall|k: int| 0 <= k < i ==> #[trigger] actors@[k] == e.actors@[k],
            decreases e.actors.len() - i,
        {
            actors.push(e.actors[i].clone());
            i += 1;
        }
        ChronologyEventView {
            date: match &e.date {
                Some(d) => Some(d.clone()),
                None => None,
            },
            kind: owned(kind_name(e.kind)),
            description: e.description.clone(),
            source_inscription: e.source_inscription.clone(),
            actors,
        }
    }
}

/// The three Mermaid diagram texts of an entity.
#[derive(Debug, Clone)]
pub struct MermaidBundleView {
    pub shareholders: String,
    pub organs: String,
    pub relationships: String,
}

/// How many events of one kind the timeline holds.
#[derive(Debug, Clone)]
pub struct ChronologyEventKindCountView {
    pub kind: String,
    pub count: usize,
}

/// The size of one structured graph.
#[derive(Debug, Clone, Copy)]
pub struct ChronologyGraphCountView {
    pub nodes: usize,
    pub edges: usize,
    pub warnings: usize,
}

/// The sizes of the three structured graphs.
#[derive(Debug, Clone, Copy)]
pub struct ChronologyGraphAnalyticsView {
    pub shareholders: ChronologyGraphCountView,
    pub organs: ChronologyGraphCountView,
    pub relationships: ChronologyGraphCountView,
}

/// Deterministic local analytics over the timeline and graphs.
#[derive(Debug, Clone)]
pub struct ChronologyAnalyticsView {
    pub total_events: usize,
    pub dated_events: usize,
    pub undated_events: usize,
    pub event_kinds: Vec<ChronologyEventKindCountView>,
    pub source_inscription_count: usize,
    pub source_inscriptions: Vec<String>,
    pub graph: ChronologyGraphAnalyticsView,
}

/// How many of the events are dated.
pub open spec fn dated_count(events: Seq<ChronologyEventView>) -> nat
    decreases events.len(),
{
    if events.len() == 0 {
        0
    } else {
        dated_count(events.drop_last()) + if events.last().date is Some {
            1nat
        } else {
            0nat
        }
    }
}

/// How many of the events have the given kind.
pub open spec fn kind_count(events: Seq<ChronologyEventView>, kind: Seq<char>) -> nat
    decreases events.len(),
{
    if events.len() == 0 {
        0
    } else {
        kind_count(events.drop_last(), kind) + if events.last().kind@ == kind {
            1nat
        } else {
            0nat
        }
    }
}

/// The distinct source inscriptions of the events, in first-seen order.
pub open spec fn distinct_sources(events: Seq<ChronologyEventView>) -> Seq<Seq<char>>
    decreases events.len(),
{
    if events.len() == 0 {
        Seq::empty()
    } else {
        let rest = distinct_sources(events.drop_last());
        if rest.contains(events.last().source_inscription@) {
            rest
        } else {
            rest.push(events.last().source_inscription@)
        }
    }
}

/// Whether `counts` lists every kind that occurs among the events exactly once, in strictly
/// ascending kind order, each with the number of events of that kind.
pub open spec fn kind_counts_are(counts: Seq<ChronologyEventKindCountView>, events: Seq<ChronologyEventView>) -> bool {
    &&& forall|i: int, j: int|
        0 <= i < j < counts.len() ==> chars_before(#[trigger] counts[i].kind@, #[trigger] counts[j].kind@)
    &&& forall|i: int|
        0 <= i < counts.len() ==> #[trigger] counts[i].count == kind_count(events, counts[i].kind@)
            && kind_count(events, counts[i].kind@) > 0
    &&& forall|k: int|
        0 <= k < events.len() ==> exists|i: int|
            0 <= i < counts.len() && #[trigger] counts[i].kind@ == (#[trigger] events[k]).kind@
}

fn strings_contain(v: &Vec<String>, s: &String) -> (r: bool)
    ensures
        r == exists|i: int| 0 <= i < v@.len() && (#[trigger] v@[i])@ == s@,
{
    let mut i: usize = 0;
    while i < v.len()
        invariant
            0 <= i <= v@.len(),
            forall|k: int| 0 <= k < i ==> (#[trigger] v@[k])@ != s@,
        decreases v.len() - i,
    {
        if crate::text::str_eq(v[i].as_str(), s.as_str()) {
            return true;
        }
        i += 1;
    }
    false
}

/// The texts of a list of strings.
pub open spec fn string_texts(v: Seq<String>) -> Seq<Seq<char>> {
    Seq::new(v.len(), |i: int| v[i]@)
}

proof fn lemma_kind_count_split(events: Seq<ChronologyEventView>, kind: Seq<char>, n: int)
    requires
        0 <= n < events.len(),
    ensures
        kind_count(events.take(n + 1), kind) == kind_count(events.take(n), kind) + if events[n].kind@
            == kind {
            1nat
        } else {
            0nat
        },
{
    assert(events.take(n + 1).drop_last() =~= events.take(n));
}

/// Whether the texts are strictly ascending.
pub open spec fn strictly_ascending(ks: Seq<String>) -> bool {
    forall|i: int, j: int| 0 <= i < j < ks.len() ==> chars_before(#[trigger] ks[i]@, #[trigger] ks[j]@)
}

/// Count events per kind: the distinct kinds in ascending order, each with its count.
fn tally_kinds(events: &Vec<ChronologyEventView>) -> (r: (Vec<String>, Vec<usize>))
    ensures
        r.0@.len() == r.1@.len(),
        strictly_ascending(r.0@),
        forall|i: int| 0 <= i < r.0@.len() ==> #[trigger] r.1@[i] == kind_count(events@, r.0@[i]@),
        forall|i: int| 0 <= i < r.0@.len() ==> kind_count(events@, (#[trigger] r.0@[i])@) > 0,
        forall|k: int|
            0 <= k < events@.len() ==> exists|i: int|
                0 <= i < r.0@.len() && (#[trigger] r.0@[i])@ == (#[trigger] events@[k]).kind@,
{
    let mut kinds: Vec<String> = Vec::new();
    let mut counts: Vec<usize> = Vec::new();
    let mut n: usize = 0;
    while n < events.len()
        invariant
            0 <= n <= events@.len(),
            kinds@.len() == counts@.len(),
            strictly_ascending(kinds@),
            forall|i: int| 0 <= i < kinds@.len() ==> #[trigger] counts@[i] == kind_count(events@.take(n as int), kinds@[i]@),
            forall|i: int| 0 <= i < kinds@.len() ==> kind_count(events@.take(n as int), (#[trigger] kinds@[i])@) > 0,
            forall|i: int| 0 <= i < kinds@.len() ==> kind_count(events@.take(n as int), (#[trigger] kinds@[i])@) <= n,
            forall|k: int|
                0 <= k < n ==> exists|i: int|
                    0 <= i < kinds@.len() && (#[trigger] kinds@[i])@ == (#[trigger] events@[k]).kind@,
        decreases events.len() - n,
    {
        let kind = &events[n].kind;
        let kc = chars_of(kind.as_str());
        let mut i: usize = 0;
        while i < kinds.len() && crate::collection_page::text_before(&chars_of(kinds[i].as_str()), &kc)
            invariant
                0 <= i <= kinds@.len(),
                kc@ == kind@,
                forall|m: int| 0 <= m < i ==> chars_before((#[trigger] kinds@[m])@, kind@),
            decreases kinds.len() - i,
        {
            i += 1;
        }
        let ghost old_kinds = kinds@;
        let ghost old_counts = counts@;
        proof {
            assert forall|m: int| 0 <= m < old_kinds.len() implies kind_count(events@.take(n + 1), (#[trigger] old_kinds[m])@)
                == kind_count(events@.take(n as int), old_kinds[m]@) + if events@[n as int].kind@ == old_kinds[m]@ {
                1nat
            } else {
                0nat
            } by {
                lemma_kind_count_split(events@, old_kinds[m]@, n as int);
            }
            // Every kind before `i` sorts before `kind`; every kind from `i` on sorts after it,
            // except possibly `kinds[i]` itself.
            if i < old_kinds.len() {
                if !chars_before(kind@, old_kinds[i as int]@) {
                    crate::collection_page::lemma_before_total(old_kinds[i as int]@, kind@);
                }
            }
            assert forall|m: int| i < m < old_kinds.len() && old_kinds[i as int]@ != kind@ implies chars_before(
                kind@,
                (#[trigger] old_kinds[m])@,
            ) by {
                crate::collection_page::lemma_before_transitive(kind@, old_kinds[i as int]@, old_kinds[m]@);
            }
            assert forall|m: int| i < m < old_kinds.len() && old_kinds[i as int]@ == kind@ implies chars_before(
                kind@,
                (#[trigger] old_kinds[m])@,
            ) by {
                assert(chars_before(old_kinds[i as int]@, old_kinds[m]@));
            }
            assert forall|m: int| 0 <= m < old_kinds.len() && m != i implies (#[trigger] old_kinds[m])@ != kind@ by {
                if m < i {
                    crate::collection_page::lemma_before_irreflexive(kind@);
                } else {
                    crate::collection_page::lemma_before_irreflexive(kind@);
                }
            }
        }
        if i < kinds.len() && crate::text::str_eq(kinds[i].as_str(), kind.as_str()) {
            let c = counts[i];
            counts.set(i, c + 1);
            proof {
                assert forall|k: int| 0 <= k < n + 1 implies exists|j: int|
                    0 <= j < kinds@.len() && (#[trigger] kinds@[j])@ == (#[trigger] events@[k]).kind@ by {
                    if k == n {
                        assert(kinds@[i as int]@ == events@[k].kind@);
                    }
                }
            }
        } else {
            proof {
                assert forall|k: int| 0 <= k < events@.take(n as int).len() implies (#[trigger] events@.take(
                    n as int,
                )[k]).kind@ != kind@ by {
                    assert(events@.take(n as int)[k] == events@[k]);
                    let j = choose|j: int| 0 <= j < old_kinds.len() && (#[trigger] old_kinds[j])@ == events@[k].kind@;
                    if j == i {
                        assert(old_kinds[j]@ != kind@);
                    }
                }
                lemma_kind_count_absent(events@.take(n as int), kind@);
                lemma_kind_count_split(events@, kind@, n as int);
            }
            kinds.insert(i, kind.clone());
            counts.insert(i, 1);
            proof {
                assert(kinds@ =~= old_kinds.take(i as int) + seq![kinds@[i as int]] + old_kinds.skip(i as int));
                assert forall|a: int, b: int| 0 <= a < b < kinds@.len() implies chars_before(
                    (#[trigger] kinds@[a])@,
                    (#[trigger] kinds@[b])@,
                ) by {
                    if b < i {
                        assert(kinds@[a] == old_kinds[a] && kinds@[b] == old_kinds[b]);
                    } else if b == i {
                        assert(kinds@[a] == old_kinds[a]);
                    } else if a < i {
                        assert(kinds@[a] == old_kinds[a] && kinds@[b] == old_kinds[b - 1]);
                    } else if a == i {
                        assert(kinds@[b] == old_kinds[b - 1]);
                    } else {
                        assert(kinds@[a] == old_kinds[a - 1] && kinds@[b] == old_kinds[b - 1]);
                    }
                }
                assert forall|m: int| 0 <= m < kinds@.len() implies #[trigger] counts@[m] == kind_count(
                    events@.take(n + 1),
                    kinds@[m]@,
                ) && kind_count(events@.take(n + 1), kinds@[m]@) > 0 && kind_count(events@.take(n + 1), kinds@[m]@) <= n + 1 by {
                    if m < i {
                        assert(kinds@[m] == old_kinds[m] && counts@[m] == old_counts[m]);
                    } else if m > i {
                        assert(kinds@[m] == old_kinds[m - 1] && counts@[m] == old_counts[m - 1]);
                    }
                }
                assert forall|k: int| 0 <= k < n + 1 implies exists|j: int|
                    0 <= j < kinds@.len() && (#[trigger] kinds@[j])@ == (#[trigger] events@[k]).kind@ by {
                    if k == n {
                        assert(kinds@[i as int]@ == events@[k].kind@);
                    } else {
                        let j = choose|j: int| 0 <= j < old_kinds.len() && (#[trigger] old_kinds[j])@ == events@[k].kind@;
                        if j < i {
                            assert(kinds@[j] == old_kinds[j]);
                        } else {
                            assert(kinds@[j + 1] == old_kinds[j]);
                        }
                    }
                }
            }
        }
        n += 1;
    }
    assert(events@.take(events@.len() as int) =~= events@);
    (kinds, counts)
}

proof fn lemma_kind_count_absent(events: Seq<ChronologyEventView>, kind: Seq<char>)
    requires
        forall|k: int| 0 <= k < events.len() ==> (#[trigger] events[k]).kind@ != kind,
    ensures
        kind_count(events, kind) == 0,
    decreases events.len(),
{
    if events.len() > 0 {
        assert(events.last() == events[events.len() - 1]);
        lemma_kind_count_absent(events.drop_last(), kind);
    }
}

impl ChronologyAnalyticsView {
    /// **The timeline analytics**: how many events there are and how many are dated; per kind, in
    /// ascending kind order, how many events have it; the distinct source inscriptions in
    /// first-seen order; and the given graph sizes.
    pub fn build(events: &Vec<ChronologyEventView>, graph: ChronologyGraphAnalyticsView) -> (r: Self)
        ensures
            r.total_events == events@.len(),
            r.dated_events == dated_count(events@),
            r.undated_events == events@.len() - dated_count(events@),
            kind_counts_are(r.event_kinds@, events@),
            string_texts(r.source_inscriptions@) == distinct_sources(events@),
            r.source_inscription_count == r.source_inscriptions@.len(),
            r.graph == graph,
    {
        let (kinds, counts) = tally_kinds(events);
        let mut event_kinds: Vec<ChronologyEventKindCountView> = Vec::new();
        let mut i: usize = 0;
        while i < kinds.len()
            invariant
                0 <= i <= kinds@.len(),
                kinds@.len() == counts@.len(),
                event_kinds@.len() == i,
                forall|m: int| 0 <= m < i ==> (#[trigger] event_kinds@[m]).kind@ == kinds@[m]@
                    && event_kinds@[m].count == counts@[m],
            decreases kinds.len() - i,
        {
            event_kinds.push(ChronologyEventKindCountView { kind: kinds[i].clone(), count: counts[i] });
            i += 1;
        }
        proof {
            assert forall|a: int, b: int| 0 <= a < b < event_kinds@.len() implies chars_before(
                (#[trigger] event_kinds@[a]).kind@,
                (#[trigger] event_kinds@[b]).kind@,
            ) by {
                assert(chars_before(kinds@[a]@, kinds@[b]@));
            }
            assert forall|k: int| 0 <= k < events@.len() implies exists|m: int|
                0 <= m < event_kinds@.len() && #[trigger] event_kinds@[m].kind@ == (#[trigger] events@[k]).kind@ by {
                let m = choose|m: int| 0 <= m < kinds@.len() && (#[trigger] kinds@[m])@ == events@[k].kind@;
                assert(event_kinds@[m].kind@ == kinds@[m]@);
            }
        }
        let mut dated: usize = 0;
        let mut sources: Vec<String> = Vec::new();
        let mut n: usize = 0;
        while n < events.len()
            invariant
                0 <= n <= events@.len(),
                dated == dated_count(events@.take(n as int)),
                dated <= n,
                string_texts(sources@) == distinct_sources(events@.take(n as int)),
            decreases events.len() - n,
        {
            proof {
                assert(events@.take(n + 1).drop_last() =~= events@.take(n as int));
            }
            if events[n].date.is_some() {
                dated += 1;
            }
            let src = &events[n].source_inscription;
            let present = strings_contain(&sources, src);
            proof {
                let prev = string_texts(sources@);
                if present {
                    let i = choose|i: int| 0 <= i < sources@.len() && (#[trigger] sources@[i])@ == src@;
                    assert(prev[i] == src@);
                    assert(prev.contains(src@));
                } else {
                    if prev.contains(src@) {
                        let j = choose|j: int| 0 <= j < prev.len() && prev[j] == src@;
                        assert(sources@[j]@ == src@);
                    }
                }
            }
            if !present {
                let ghost before = sources@;
                sources.push(src.clone());
                proof {
                    assert(string_texts(sources@) =~= string_texts(before).push(src@));
                }
            }
            n += 1;
        }
        assert(events@.take(events@.len() as int) =~= events@);
        let count = sources.len();
        ChronologyAnalyticsView {
            total_events: events.len(),
            dated_events: dated,
            undated_events: events.len() - dated,
            event_kinds,
            source_inscription_count: count,
            source_inscriptions: sources,
            graph,
        }
    }
}

// =================================================================================================
// Sealed-act projection
// =================================================================================================

/// The lifecycle state of an act.
#[derive(Debug, Clone, Copy, PartialEq, Eq, Structural)]
pub enum ActState {
    Draft,
    Review,
    Convened,
    Deliberated,
    TextApproved,
    Signing,
    Sealed,
    Archived,
}

/// The name of an act state.
pub open spec fn act_state_name(state: ActState) -> Seq<char> {
    match state {
        ActState::Draft => "Draft"@,
        ActState::Review => "Review"@,
        ActState::Convened => "Convened"@,
        ActState::Deliberated => "Deliberated"@,
        ActState::TextApproved => "TextApproved"@,
        ActState::Signing => "Signing"@,
        ActState::Sealed => "Sealed"@,
        ActState::Archived => "Archived"@,
    }
}

/// The name of an act state.
pub fn state_name(state: ActState) -> (r: &'static str)
    ensures
        r@ == act_state_name(state),
{
    match state {
        ActState::Draft => "Draft",
        ActState::Review => "Review",
        ActState::Convened => "Convened",
        ActState::Deliberated => "Deliberated",
        ActState::TextApproved => "TextApproved",
        ActState::Signing => "Signing",
        ActState::Sealed => "Sealed",
        ActState::Archived => "Archived",
    }
}

/// What the projection reads of an act. `meeting_date` is already formatted.
#[derive(Debug, Clone)]
pub struct ActRecord {
    pub id: String,
    pub book_id: String,
    pub state: ActState,
    pub meeting_date: Option<String>,
    pub ata_number: Option<u64>,
    pub title: String,
    /// The act this act rectifies, if it is a rectification.
    pub retifies: Option<String>,
    pub payload_digest: Option<[u8; 32]>,
    pub seal_event_seq: Option<u64>,
}

/// Which entity a book belongs to.
#[derive(Debug, Clone)]
pub struct BookOwner {
    pub book_id: String,
    pub entity_id: String,
}

/// The provenance of a projected fact: the sealed act it comes from.
#[derive(Debug, Clone)]
pub struct SealedActSourceView {
    pub kind: &'static str,
    pub act_id: String,
    pub book_id: String,
    pub ata_number: Option<u64>,
    pub payload_digest: Option<String>,
    pub seal_event_seq: Option<u64>,
}

/// A projected timeline event.
#[derive(Debug, Clone)]
pub struct SealedActProjectionEventView {
    pub date: Option<String>,
    pub kind: String,
    pub description: String,
    pub act_id: String,
    pub book_id: String,
    pub ata_number: Option<u64>,
    pub act_state: String,
    pub source: SealedActSourceView,
}

/// A projected graph node (one per act).
#[derive(Debug, Clone)]
pub struct SealedActProjectionGraphNodeView {
    pub id: String,
    pub label: String,
    pub kind: String,
    pub source: SealedActSourceView,
}

/// A projected graph edge.
#[derive(Debug, Clone)]
pub struct SealedActProjectionGraphEdgeView {
    pub id: String,
    pub from: String,
    pub to: String,
    pub label: String,
    pub kind: String,
    pub source: SealedActSourceView,
}

/// The projected graph.
#[derive(Debug, Clone)]
pub struct SealedActProjectionGraphView {
    pub nodes: Vec<SealedActProjectionGraphNodeView>,
    pub edges: Vec<SealedActProjectionGraphEdgeView>,
}

/// The sealed-act projection of an entity.
#[derive(Debug, Clone)]
pub struct SealedActProjectionView {
    pub events: Vec<SealedActProjectionEventView>,
    pub graph: SealedActProjectionGraphView,
    pub provenance: Vec<SealedActSourceView>,
    pub legal_validity_claimed: bool,
    pub authority_certified_claimed: bool,
}

/// The text of an optional string.
pub open spec fn opt_view(o: Option<String>) -> Option<Seq<char>> {
    match o {
        Some(s) => Some(s@),
        None => None,
    }
}

/// Whether a book of the entity has the given id.
pub open spec fn owns_book(books: Seq<BookOwner>, entity: Seq<char>, book: Seq<char>) -> bool {
    exists|i: int| 0 <= i < books.len() && (#[trigger] books[i]).entity_id@ == entity && books[i].book_id@ == book
}

/// Whether an act is projected: sealed or archived, in a book of the entity.
pub open spec fn act_projected(a: ActRecord, books: Seq<BookOwner>, entity: Seq<char>) -> bool {
    (a.state == ActState::Sealed || a.state == ActState::Archived) && owns_book(books, entity, a.book_id@)
}

/// The projected acts, in the order given.
pub open spec fn projected_acts(acts: Seq<ActRecord>, books: Seq<BookOwner>, entity: Seq<char>) -> Seq<ActRecord>
    decreases acts.len(),
{
    if acts.len() == 0 {
        Seq::empty()
    } else {
        let rest = projected_acts(acts.drop_last(), books, entity);
        if act_projected(acts.last(), books, entity) {
            rest.push(acts.last())
        } else {
            rest
        }
    }
}

/// Whether an optional text sorts before another (absent first).
pub open spec fn opt_text_before(a: Option<Seq<char>>, b: Option<Seq<char>>) -> bool {
    match (a, b) {
        (None, Some(_)) => true,
        (Some(x), Some(y)) => chars_before(x, y),
        _ => false,
    }
}

/// Whether an optional number sorts before another (absent first).
pub open spec fn opt_number_before(a: Option<u64>, b: Option<u64>) -> bool {
    match (a, b) {
        (None, Some(_)) => true,
        (Some(x), Some(y)) => x < y,
        _ => false,
    }
}

/// The projection order: meeting date, then ata number, then book id, then act id.
pub open spec fn act_before(a: ActRecord, b: ActRecord) -> bool {
    let (da, db) = (opt_view(a.meeting_date), opt_view(b.meeting_date));
    opt_text_before(da, db) || (da == db && (opt_number_before(a.ata_number, b.ata_number) || (
    a.ata_number == b.ata_number && (chars_before(a.book_id@, b.book_id@) || (a.book_id@
        == b.book_id@ && chars_before(a.id@, b.id@))))))
}

/// The text order is a strict total order: asymmetric, and two texts neither before the other
/// are equal.
proof fn lemma_text_order(x: Seq<char>, y: Seq<char>)
    ensures
        chars_before(x, y) ==> !chars_before(y, x),
        !chars_before(x, y) && !chars_before(y, x) ==> x == y,
{
    if chars_before(x, y) {
        crate::collection_page::lemma_before_asymmetric(x, y);
    }
    if !chars_before(x, y) && !chars_before(y, x) {
        crate::collection_page::lemma_before_total(x, y);
    }
}

/// The text order is transitive.
proof fn lemma_text_transitive(x: Seq<char>, y: Seq<char>, z: Seq<char>)
    ensures
        chars_before(x, y) && chars_before(y, z) ==> chars_before(x, z),
{
    if chars_before(x, y) && chars_before(y, z) {
        crate::collection_page::lemma_before_transitive(x, y, z);
    }
}

/// The order of an optional date (absent first) is a strict total order.
proof fn lemma_date_order(x: Option<Seq<char>>, y: Option<Seq<char>>, z: Option<Seq<char>>)
    ensures
        opt_text_before(x, y) ==> !opt_text_before(y, x),
        !opt_text_before(x, y) && !opt_text_before(y, x) ==> x == y,
        opt_text_before(x, y) && opt_text_before(y, z) ==> opt_text_before(x, z),
{
    if let (Some(a), Some(b)) = (x, y) {
        lemma_text_order(a, b);
        if let Some(c) = z {
            lemma_text_transitive(a, b, c);
        }
    }
}

/// The projection order is a strict weak order: asymmetric, and an act not before a second that is
/// not before a third is not before the third either.
proof fn lemma_act_order(a: ActRecord, b: ActRecord, c: ActRecord)
    ensures
        act_before(a, b) ==> !act_before(b, a),
        !act_before(a, b) && !act_before(b, c) ==> !act_before(a, c),
{
    let (da, db, dc) = (opt_view(a.meeting_date), opt_view(b.meeting_date), opt_view(c.meeting_date));
    lemma_date_order(da, db, dc);
    lemma_date_order(db, da, dc);
    lemma_date_order(da, dc, db);
    lemma_date_order(db, dc, da);
    lemma_date_order(dc, da, db);
    lemma_date_order(dc, db, da);
    lemma_text_order(a.book_id@, b.book_id@);
    lemma_text_order(b.book_id@, c.book_id@);
    lemma_text_order(a.book_id@, c.book_id@);
    lemma_text_transitive(b.book_id@, a.book_id@, c.book_id@);
    lemma_text_transitive(a.book_id@, c.book_id@, b.book_id@);
    lemma_text_transitive(b.book_id@, c.book_id@, a.book_id@);
    lemma_text_order(a.id@, b.id@);
    lemma_text_order(b.id@, c.id@);
    lemma_text_order(a.id@, c.id@);
    lemma_text_transitive(b.id@, a.id@, c.id@);
    lemma_text_transitive(a.id@, c.id@, b.id@);
    lemma_text_transitive(b.id@, c.id@, a.id@);
}

/// **The projection lists acts by meeting date first** (an undated act first, then by date text),
/// and only among acts of one date by ata number (an unnumbered act first), then by book id, then
/// by act id: no act of the projection order comes after one it sorts before on these keys.
pub proof fn lemma_projection_orders_by_date_then_number(
    acts: Seq<ActRecord>,
    books: Seq<BookOwner>,
    entity: Seq<char>,
)
    ensures
        ({
            let s = sorted_stably(projected_acts(acts, books, entity), |a: ActRecord, b: ActRecord| act_before(a, b));
            forall|i: int, j: int|
                0 <= i < j < s.len() ==> {
                    let (early, late) = (#[trigger] s[i], #[trigger] s[j]);
                    let (de, dl) = (opt_view(early.meeting_date), opt_view(late.meeting_date));
                    &&& !opt_text_before(dl, de)
                    &&& dl == de ==> !opt_number_before(late.ata_number, early.ata_number)
                    &&& dl == de && late.ata_number == early.ata_number ==> !chars_before(
                        late.book_id@,
                        early.book_id@,
                    )
                    &&& dl == de && late.ata_number == early.ata_number && late.book_id@ == early.book_id@
                        ==> !chars_before(late.id@, early.id@)
                }
        }),
{
    let before = |a: ActRecord, b: ActRecord| act_before(a, b);
    assert forall|a: ActRecord, b: ActRecord| #[trigger] before(a, b) implies !before(b, a) by {
        lemma_act_order(a, b, a);
    }
    assert forall|a: ActRecord, b: ActRecord, c: ActRecord|
        #![trigger before(a, b), before(b, c)]
        !before(a, b) && !before(b, c) implies !before(a, c) by {
        lemma_act_order(a, b, c);
    }
    crate::sorting::lemma_sorted_has_no_inversion(projected_acts(acts, books, entity), before);
}

/// **The projection holds exactly the entity's sealed and archived acts**: every act it lists is
/// one of the given acts, sealed or archived, in a book the entity owns; and every such given act
/// is listed.
pub proof fn lemma_projection_holds_sealed_and_archived_acts(
    acts: Seq<ActRecord>,
    books: Seq<BookOwner>,
    entity: Seq<char>,
)
    ensures
        ({
            let s = sorted_stably(projected_acts(acts, books, entity), |a: ActRecord, b: ActRecord| act_before(a, b));
            &&& forall|k: int|
                0 <= k < s.len() ==> {
                    &&& acts.contains(#[trigger] s[k])
                    &&& s[k].state == ActState::Sealed || s[k].state == ActState::Archived
                    &&& exists|i: int| 0 <= i < books.len() && (#[trigger] books[i]).entity_id@ == entity
                        && books[i].book_id@ == s[k].book_id@
                }
            &&& forall|k: int|
                0 <= k < acts.len() && ((#[trigger] acts[k]).state == ActState::Sealed || acts[k].state
                    == ActState::Archived) && (exists|i: int| 0 <= i < books.len() && (#[trigger] books[i]).entity_id@
                    == entity && books[i].book_id@ == acts[k].book_id@) ==> s.contains(acts[k])
        }),
{
    let before = |a: ActRecord, b: ActRecord| act_before(a, b);
    let pr = projected_acts(acts, books, entity);
    lemma_projected_acts_members(acts, books, entity);
    crate::sorting::lemma_sorted_keeps_elements(pr, before);
    crate::sorting::lemma_sorted_contains_all(pr, before);
    let s = sorted_stably(pr, before);
    assert forall|k: int| 0 <= k < s.len() implies acts.contains(#[trigger] s[k]) && (s[k].state == ActState::Sealed
        || s[k].state == ActState::Archived) && owns_book(books, entity, s[k].book_id@) by {
        assert(pr.contains(s[k]));
        let w = choose|w: int| 0 <= w < pr.len() && pr[w] == s[k];
        assert(act_projected(pr[w], books, entity) && acts.contains(pr[w]));
    }
    assert forall|k: int|
        0 <= k < acts.len() && act_projected(#[trigger] acts[k], books, entity) implies s.contains(acts[k]) by {
        assert(pr.contains(acts[k]));
        let w = choose|w: int| 0 <= w < pr.len() && pr[w] == acts[k];
        assert(s.contains(pr[w]));
    }
}

/// The projected acts are the given acts that are projected.
proof fn lemma_projected_acts_members(acts: Seq<ActRecord>, books: Seq<BookOwner>, entity: Seq<char>)
    ensures
        forall|k: int|
            0 <= k < projected_acts(acts, books, entity).len() ==> acts.contains(
                #[trigger] projected_acts(acts, books, entity)[k],
            ) && act_projected(projected_acts(acts, books, entity)[k], books, entity),
        forall|k: int|
            0 <= k < acts.len() && act_projected(#[trigger] acts[k], books, entity) ==> projected_acts(
                acts,
                books,
                entity,
            ).contains(acts[k]),
    decreases acts.len(),
{
    if acts.len() > 0 {
        let rest = acts.drop_last();
        lemma_projected_acts_members(rest, books, entity);
        let v = projected_acts(acts, books, entity);
        let vr = projected_acts(rest, books, entity);
        assert forall|k: int| 0 <= k < v.len() implies acts.contains(#[trigger] v[k]) && act_projected(v[k], books, entity) by {
            if k < vr.len() {
                assert(v[k] == vr[k]);
                let w = choose|w: int| 0 <= w < rest.len() && rest[w] == vr[k];
                assert(acts[w] == rest[w]);
            } else {
                assert(v[k] == acts[acts.len() - 1]);
            }
        }
        assert forall|k: int| 0 <= k < acts.len() && act_projected(#[trigger] acts[k], books, entity) implies v.contains(acts[k]) by {
            if k < acts.len() - 1 {
                assert(acts[k] == rest[k]);
                assert(vr.contains(rest[k]));
                let w = choose|w: int| 0 <= w < vr.len() && vr[w] == rest[k];
                assert(v[w] == vr[w]);
            } else {
                assert(v[v.len() - 1] == acts[k]);
            }
        }
    }
}

/// ` n.º N` for a numbered act, nothing otherwise.
pub open spec fn ata_suffix(n: Option<u64>) -> Seq<char> {
    match n {
        Some(x) => " n.º "@ + dec_nat(x as nat),
        None => Seq::empty(),
    }
}

/// `: title` for a non-blank title (trimmed), nothing otherwise.
pub open spec fn title_suffix(title: Seq<char>) -> Seq<char> {
    if trim(title).len() == 0 {
        Seq::empty()
    } else {
        ": "@ + trim(title)
    }
}

/// The description of a sealed act's event.
pub open spec fn sealed_description(a: ActRecord) -> Seq<char> {
    act_state_name(a.state) + " ata"@ + ata_suffix(a.ata_number) + title_suffix(a.title@)
}

/// The description of a rectification's event.
pub open spec fn correction_description(a: ActRecord, retified: Seq<char>) -> Seq<char> {
    "Ata"@ + ata_suffix(a.ata_number) + " rectifies act "@ + retified
}

/// The graph node id of an act.
pub open spec fn node_id(act: Seq<char>) -> Seq<char> {
    "act:"@ + act
}

/// The graph node label of an act.
pub open spec fn node_label(a: ActRecord) -> Seq<char> {
    match a.ata_number {
        Some(n) => "Ata n.º "@ + dec_nat(n as nat),
        None => "Act "@ + a.id@,
    }
}

/// Whether `s` is the provenance of act `a`.
pub open spec fn source_is(s: SealedActSourceView, a: ActRecord) -> bool {
    &&& s.kind@ == "sealed_act"@
    &&& s.act_id@ == a.id@
    &&& s.book_id@ == a.book_id@
    &&& s.ata_number == a.ata_number
    &&& opt_view(s.payload_digest) == match a.payload_digest {
        Some(d) => Some(hex_lower(d@)),
        None => None,
    }
    &&& s.seal_event_seq == a.seal_event_seq
}

/// Whether `e` is the event of act `a` (its rectification event when `correction`).
pub open spec fn event_is(e: SealedActProjectionEventView, a: ActRecord, correction: bool) -> bool {
    &&& opt_view(e.date) == opt_view(a.meeting_date)
    &&& e.kind@ == (if correction {
        "Correction"@
    } else {
        "SealedAct"@
    })
    &&& e.description@ == (if correction {
        correction_description(a, a.retifies->Some_0@)
    } else {
        sealed_description(a)
    })
    &&& e.act_id@ == a.id@
    &&& e.book_id@ == a.book_id@
    &&& e.ata_number == a.ata_number
    &&& e.act_state@ == act_state_name(a.state)
    &&& source_is(e.source, a)
}

/// Whether `n` is the node of act `a`.
pub open spec fn node_is(n: SealedActProjectionGraphNodeView, a: ActRecord) -> bool {
    &&& n.id@ == node_id(a.id@)
    &&& n.label@ == node_label(a)
    &&& n.kind@ == "sealed_act"@
    &&& source_is(n.source, a)
}

/// Whether `e` is the correction edge of the rectifying act `a`.
pub open spec fn correction_edge_is(e: SealedActProjectionGraphEdgeView, a: ActRecord) -> bool {
    let r = a.retifies->Some_0@;
    &&& e.id@ == "correction:"@ + a.id@ + ":"@ + r
    &&& e.from@ == node_id(a.id@)
    &&& e.to@ == node_id(r)
    &&& e.label@ == "retifies"@
    &&& e.kind@ == "correction"@
    &&& source_is(e.source, a)
}

/// Whether `e` links `prev` to the next act `cur` of the same book.
pub open spec fn sequence_edge_is(e: SealedActProjectionGraphEdgeView, prev: ActRecord, cur: ActRecord) -> bool {
    &&& e.id@ == "book-sequence:"@ + prev.id@ + ":"@ + cur.id@
    &&& e.from@ == node_id(prev.id@)
    &&& e.to@ == node_id(cur.id@)
    &&& e.label@ == "same book sequence"@
    &&& e.kind@ == "book_sequence"@
    &&& source_is(e.source, cur)
}

/// The timeline plan: for each act, its event, followed by its rectification event if it has one.
pub open spec fn event_plan(acts: Seq<ActRecord>) -> Seq<(int, bool)>
    decreases acts.len(),
{
    if acts.len() == 0 {
        Seq::empty()
    } else {
        let i = acts.len() - 1;
        let p = event_plan(acts.drop_last()).push((i, false));
        if acts.last().retifies is Some {
            p.push((i, true))
        } else {
            p
        }
    }
}

/// The rectifying acts, by position.
pub open spec fn correction_plan(acts: Seq<ActRecord>) -> Seq<int>
    decreases acts.len(),
{
    if acts.len() == 0 {
        Seq::empty()
    } else {
        let p = correction_plan(acts.drop_last());
        if acts.last().retifies is Some {
            p.push(acts.len() - 1)
        } else {
            p
        }
    }
}

/// The acts that follow an act of the same book, by position.
pub open spec fn sequence_plan(acts: Seq<ActRecord>) -> Seq<int>
    decreases acts.len(),
{
    if acts.len() < 2 {
        Seq::empty()
    } else {
        let p = sequence_plan(acts.drop_last());
        if acts[acts.len() - 2].book_id@ == acts[acts.len() - 1].book_id@ {
            p.push(acts.len() - 1)
        } else {
            p
        }
    }
}

/// Whether `v` is the projection of the (ordered, non-empty) acts.
pub open spec fn projection_is(v: SealedActProjectionView, acts: Seq<ActRecord>) -> bool {
    let ep = event_plan(acts);
    let cp = correction_plan(acts);
    let sp = sequence_plan(acts);
    &&& v.provenance@.len() == acts.len()
    &&& forall|i: int| 0 <= i < acts.len() ==> source_is(#[trigger] v.provenance@[i], acts[i])
    &&& v.graph.nodes@.len() == acts.len()
    &&& forall|i: int| 0 <= i < acts.len() ==> node_is(#[trigger] v.graph.nodes@[i], acts[i])
    &&& v.events@.len() == ep.len()
    &&& forall|k: int| 0 <= k < ep.len() ==> 0 <= (#[trigger] ep[k]).0 < acts.len()
    &&& forall|k: int| 0 <= k < ep.len() ==> event_is(#[trigger] v.events@[k], acts[ep[k].0], ep[k].1)
    &&& v.graph.edges@.len() == cp.len() + sp.len()
    &&& forall|k: int| 0 <= k < cp.len() ==> 0 <= #[trigger] cp[k] < acts.len()
    &&& forall|k: int| 0 <= k < cp.len() ==> correction_edge_is(#[trigger] v.graph.edges@[k], acts[cp[k]])
    &&& forall|k: int| 0 <= k < sp.len() ==> 1 <= #[trigger] sp[k] < acts.len()
    &&& forall|k: int|
        0 <= k < sp.len() ==> sequence_edge_is(
            #[trigger] v.graph.edges@[cp.len() + k],
            acts[sp[k] - 1],
            acts[sp[k]],
        )
    &&& !v.legal_validity_claimed
    &&& !v.authority_certified_claimed
}

fn clone_opt_string(o: &Option<String>) -> (r: Option<String>)
    ensures
        r == *o,
{
    match o {
        Some(s) => Some(s.clone()),
        None => None,
    }
}

/// The provenance record of an act.
pub fn sealed_act_source(a: &ActRecord) -> (r: SealedActSourceView)
    ensures
        source_is(r, *a),
{
    SealedActSourceView {
        kind: "sealed_act",
        act_id: a.id.clone(),
        book_id: a.book_id.clone(),
        ata_number: a.ata_number,
        payload_digest: match &a.payload_digest {
            Some(d) => Some(hex_encode(d)),
            None => None,
        },
        seal_event_seq: a.seal_event_seq,
    }
}

fn clone_source(s: &SealedActSourceView) -> (r: SealedActSourceView)
    ensures
        r == *s,
{
    SealedActSourceView {
        kind: s.kind,
        act_id: s.act_id.clone(),
        book_id: s.book_id.clone(),
        ata_number: s.ata_number,
        payload_digest: clone_opt_string(&s.payload_digest),
        seal_event_seq: s.seal_event_seq,
    }
}

fn ata_suffix_text(n: Option<u64>) -> (r: String)
    ensures
        r@ == ata_suffix(n),
{
    match n {
        Some(x) => {
            let mut m = owned(" n.º ");
            push_str(&mut m, u64_to_string(x).as_str());
            m
        },
        None => String::new(),
    }
}

/// The graph node id of an act.
pub fn act_node_id(act_id: &str) -> (r: String)
    ensures
        r@ == node_id(act_id@),
{
    let mut m = owned("act:");
    push_str(&mut m, act_id);
    m
}

/// The graph node label of an act.
pub fn act_node_label(a: &ActRecord) -> (r: String)
    ensures
        r@ == node_label(*a),
{
    match a.ata_number {
        Some(n) => {
            let mut m = owned("Ata n.º ");
            push_str(&mut m, u64_to_string(n).as_str());
            m
        },
        None => {
            let mut m = owned("Act ");
            push_str(&mut m, a.id.as_str());
            m
        },
    }
}

fn sealed_event(a: &ActRecord) -> (r: SealedActProjectionEventView)
    ensures
        event_is(r, *a, false),
{
    let mut d = owned(state_name(a.state));
    push_str(&mut d, " ata");
    push_str(&mut d, ata_suffix_text(a.ata_number).as_str());
    let t = trim_chars(a.title.as_str());
    if t.len() > 0 {
        push_str(&mut d, ": ");
        push_str(&mut d, string_from_chars(&t).as_str());
    }
    assert(d@ =~= sealed_description(*a));
    SealedActProjectionEventView {
        date: clone_opt_string(&a.meeting_date),
        kind: owned("SealedAct"),
        description: d,
        act_id: a.id.clone(),
        book_id: a.book_id.clone(),
        ata_number: a.ata_number,
        act_state: owned(state_name(a.state)),
        source: sealed_act_source(a),
    }
}

fn correction_event(a: &ActRecord, retified: &String) -> (r: SealedActProjectionEventView)
    requires
        a.retifies == Some(*retified),
    ensures
        event_is(r, *a, true),
{
    let mut d = owned("Ata");
    push_str(&mut d, ata_suffix_text(a.ata_number).as_str());
    push_str(&mut d, " rectifies act ");
    push_str(&mut d, retified.as_str());
    SealedActProjectionEventView {
        date: clone_opt_string(&a.meeting_date),
        kind: owned("Correction"),
        description: d,
        act_id: a.id.clone(),
        book_id: a.book_id.clone(),
        ata_number: a.ata_number,
        act_state: owned(state_name(a.state)),
        source: sealed_act_source(a),
    }
}

fn correction_edge(a: &ActRecord, retified: &String) -> (r: SealedActProjectionGraphEdgeView)
    requires
        a.retifies == Some(*retified),
    ensures
        correction_edge_is(r, *a),
{
    let mut id = owned("correction:");
    push_str(&mut id, a.id.as_str());
    push_str(&mut id, ":");
    push_str(&mut id, retified.as_str());
    SealedActProjectionGraphEdgeView {
        id,
        from: act_node_id(a.id.as_str()),
        to: act_node_id(retified.as_str()),
        label: owned("retifies"),
        kind: owned("correction"),
        source: sealed_act_source(a),
    }
}

fn sequence_edge(prev: &ActRecord, cur: &ActRecord) -> (r: SealedActProjectionGraphEdgeView)
    ensures
        sequence_edge_is(r, *prev, *cur),
{
    let mut id = owned("book-sequence:");
    push_str(&mut id, prev.id.as_str());
    push_str(&mut id, ":");
    push_str(&mut id, cur.id.as_str());
    SealedActProjectionGraphEdgeView {
        id,
        from: act_node_id(prev.id.as_str()),
        to: act_node_id(cur.id.as_str()),
        label: owned("same book sequence"),
        kind: owned("book_sequence"),
        source: sealed_act_source(cur),
    }
}

fn owns_book_exec(books: &Vec<BookOwner>, entity: &str, book: &str) -> (r: bool)
    ensures
        r == owns_book(books@, entity@, book@),
{
    let mut i: usize = 0;
    while i < books.len()
        invariant
            0 <= i <= books@.len(),
            forall|k: int|
                0 <= k < i ==> !((#[trigger] books@[k]).entity_id@ == entity@ && books@[k].book_id@ == book@),
        decreases books.len() - i,
    {
        if crate::text::str_eq(books[i].entity_id.as_str(), entity)
            && crate::text::str_eq(books[i].book_id.as_str(), book) {
            return true;
        }
        i += 1;
    }
    false
}

fn filter_projected(entity_id: &str, books: &Vec<BookOwner>, acts: Vec<ActRecord>) -> (r: Vec<ActRecord>)
    ensures
        r@ == projected_acts(acts@, books@, entity_id@),
{
    let ghost src = acts@;
    let mut out: Vec<ActRecord> = Vec::new();
    for a in it: acts.into_iter()
        invariant
            it.seq() == src,
            out@ == projected_acts(src.take(it.index() as int), books@, entity_id@),
    {
        let ghost i = it.index();
        proof {
            assert(src.take(i + 1).drop_last() =~= src.take(i));
            assert(src.take(i + 1).last() == a);
        }
        let sealed = match a.state {
            ActState::Sealed => true,
            ActState::Archived => true,
            _ => false,
        };
        if sealed && owns_book_exec(books, entity_id, a.book_id.as_str()) {
            out.push(a);
        }
    }
    assert(src.take(src.len() as int) =~= src);
    out
}

fn opt_text_is_before(a: &Option<String>, b: &Option<String>) -> (r: bool)
    ensures
        r == opt_text_before(opt_view(*a), opt_view(*b)),
{
    match (a, b) {
        (None, Some(_)) => true,
        (Some(x), Some(y)) => text_before(&chars_of(x.as_str()), &chars_of(y.as_str())),
        _ => false,
    }
}

fn opt_text_eq(a: &Option<String>, b: &Option<String>) -> (r: bool)
    ensures
        r == (opt_view(*a) == opt_view(*b)),
{
    match (a, b) {
        (None, None) => true,
        (Some(x), Some(y)) => crate::text::str_eq(x.as_str(), y.as_str()),
        _ => false,
    }
}

/// Whether act `a` comes before act `b` in the projection order.
pub fn act_is_before(a: &ActRecord, b: &ActRecord) -> (r: bool)
    ensures
        r == act_before(*a, *b),
{
    if opt_text_is_before(&a.meeting_date, &b.meeting_date) {
        return true;
    }
    if !opt_text_eq(&a.meeting_date, &b.meeting_date) {
        return false;
    }
    let na = a.ata_number;
    let nb = b.ata_number;
    let num_before = match (na, nb) {
        (None, Some(_)) => true,
        (Some(x), Some(y)) => x < y,
        _ => false,
    };
    if num_before {
        return true;
    }
    if na != nb {
        return false;
    }
    let ab = chars_of(a.book_id.as_str());
    let bb = chars_of(b.book_id.as_str());
    if text_before(&ab, &bb) {
        return true;
    }
    if !crate::text::str_eq(a.book_id.as_str(), b.book_id.as_str()) {
        return false;
    }
    text_before(&chars_of(a.id.as_str()), &chars_of(b.id.as_str()))
}

proof fn lemma_plan_step(s: Seq<ActRecord>, i: int)
    requires
        0 <= i < s.len(),
    ensures
        s.take(i + 1).drop_last() == s.take(i),
        s.take(i + 1).last() == s[i],
        i >= 1 ==> s.take(i + 1)[i - 1] == s[i - 1],
{
    assert(s.take(i + 1).drop_last() =~= s.take(i));
}

/// **The sealed-act projection** of an entity: its books' sealed and archived acts in projection
/// order, each with its timeline event, graph node and provenance; a rectification adds its
/// correction event and edge; consecutive acts of one book are linked in sequence. `None` when the
/// entity has no such act.
pub fn build_sealed_act_projection(
    entity_id: &str,
    books: &Vec<BookOwner>,
    acts: Vec<ActRecord>,
) -> (r: Option<SealedActProjectionView>)
    ensures
        ({
            let sorted = sorted_stably(
                projected_acts(acts@, books@, entity_id@),
                |a: ActRecord, b: ActRecord| act_before(a, b),
            );
            match r {
                None => sorted.len() == 0,
                Some(v) => sorted.len() > 0 && projection_is(v, sorted),
            }
        }),
{
    let projected = filter_projected(entity_id, books, acts);
    let ghost before = |a: ActRecord, b: ActRecord| act_before(a, b);
    let lt = |a: &ActRecord, b: &ActRecord| -> (r: bool)
        ensures
            r == act_before(*a, *b),
        { act_is_before(a, b) };
    let sorted = sort_stably(projected, lt, Ghost(before));
    if sorted.len() == 0 {
        return None;
    }
    let ghost s = sorted@;
    let mut events: Vec<SealedActProjectionEventView> = Vec::new();
    let mut nodes: Vec<SealedActProjectionGraphNodeView> = Vec::new();
    let mut edges: Vec<SealedActProjectionGraphEdgeView> = Vec::new();
    let mut provenance: Vec<SealedActSourceView> = Vec::new();
    let mut i: usize = 0;
    while i < sorted.len()
        invariant
            0 <= i <= s.len(),
            s == sorted@,
            provenance@.len() == i,
            forall|j: int| 0 <= j < i ==> source_is(#[trigger] provenance@[j], s[j]),
            nodes@.len() == i,
            forall|j: int| 0 <= j < i ==> node_is(#[trigger] nodes@[j], s[j]),
            events@.len() == event_plan(s.take(i as int)).len(),
            forall|k: int|
                0 <= k < events@.len() ==> 0 <= (#[trigger] event_plan(s.take(i as int))[k]).0 < i,
            forall|k: int|
                0 <= k < events@.len() ==> event_is(
                    #[trigger] events@[k],
                    s[event_plan(s.take(i as int))[k].0],
                    event_plan(s.take(i as int))[k].1,
                ),
            edges@.len() == correction_plan(s.take(i as int)).len(),
            forall|k: int|
                0 <= k < edges@.len() ==> 0 <= #[trigger] correction_plan(s.take(i as int))[k] < i,
            forall|k: int|
                0 <= k < edges@.len() ==> correction_edge_is(
                    #[trigger] edges@[k],
                    s[correction_plan(s.take(i as int))[k]],
                ),
        decreases s.len() - i,
    {
        let a = &sorted[i];
        proof {
            lemma_plan_step(s, i as int);
        }
        let ghost old_events = events@;
        let ghost old_edges = edges@;
        provenance.push(sealed_act_source(a));
        events.push(sealed_event(a));
        nodes.push(SealedActProjectionGraphNodeView {
            id: act_node_id(a.id.as_str()),
            label: act_node_label(a),
            kind: owned("sealed_act"),
            source: sealed_act_source(a),
        });
        match &a.retifies {
            Some(rid) => {
                events.push(correction_event(a, rid));
                edges.push(correction_edge(a, rid));
            },
            None => {},
        }
        i += 1;
        proof {
            let ep_old = event_plan(s.take(i - 1));
            let ep_new = event_plan(s.take(i as int));
            let cp_old = correction_plan(s.take(i - 1));
            let cp_new = correction_plan(s.take(i as int));
            assert(s.take(i as int).drop_last() == s.take(i - 1));
            assert(s.take(i as int).last() == s[i - 1]);
            assert(s.take(i as int).len() == i);
            if s[i - 1].retifies is Some {
                assert(ep_new =~= ep_old.push((i - 1, false)).push((i - 1, true)));
                assert(cp_new =~= cp_old.push(i - 1));
            } else {
                assert(ep_new =~= ep_old.push((i - 1, false)));
                assert(cp_new =~= cp_old);
            }
            assert forall|k: int| 0 <= k < events@.len() implies 0 <= ep_new[k].0 < i && event_is(
                #[trigger] events@[k],
                s[ep_new[k].0],
                ep_new[k].1,
            ) by {
                if k < old_events.len() {
                    assert(events@[k] == old_events[k]);
                    assert(ep_new[k] == ep_old[k]);
                }
            }
            assert forall|k: int| 0 <= k < edges@.len() implies 0 <= cp_new[k] < i && correction_edge_is(
                #[trigger] edges@[k],
                s[cp_new[k]],
            ) by {
                if k < old_edges.len() {
                    assert(edges@[k] == old_edges[k]);
                    assert(cp_new[k] == cp_old[k]);
                }
            }
        }
    }
    let ghost n_corr = edges@.len();
    proof {
        assert(s.take(s.len() as int) =~= s);
        assert forall|k: int| 0 <= k < n_corr implies 0 <= correction_plan(s)[k] < s.len() && correction_edge_is(
            #[trigger] edges@[k],
            s[correction_plan(s)[k]],
        ) by {
            assert(correction_plan(s.take(s.len() as int)) == correction_plan(s));
        }
        assert(s.take(1).len() == 1);
        assert(sequence_plan(s.take(1)).len() == 0);
    }
    let mut j: usize = 1;
    while j < sorted.len()
        invariant
            1 <= j <= s.len(),
            s == sorted@,
            n_corr == correction_plan(s).len(),
            edges@.len() == n_corr + sequence_plan(s.take(j as int)).len(),
            forall|k: int| 0 <= k < n_corr ==> 0 <= #[trigger] correction_plan(s)[k] < s.len(),
            forall|k: int|
                0 <= k < n_corr ==> correction_edge_is(#[trigger] edges@[k], s[correction_plan(s)[k]]),
            forall|k: int|
                0 <= k < sequence_plan(s.take(j as int)).len() ==> 1 <= #[trigger] sequence_plan(
                    s.take(j as int),
                )[k] < j,
            forall|k: int|
                0 <= k < sequence_plan(s.take(j as int)).len() ==> sequence_edge_is(
                    #[trigger] edges@[n_corr + k],
                    s[sequence_plan(s.take(j as int))[k] - 1],
                    s[sequence_plan(s.take(j as int))[k]],
                ),
        decreases s.len() - j,
    {
        let prev = &sorted[j - 1];
        let cur = &sorted[j];
        proof {
            lemma_plan_step(s, j as int);
        }
        let ghost old_edges = edges@;
        if crate::text::str_eq(prev.book_id.as_str(), cur.book_id.as_str()) {
            edges.push(sequence_edge(prev, cur));
        }
        proof {
            let sp_old = sequence_plan(s.take(j as int));
            let sp_new = sequence_plan(s.take(j + 1));
            assert(s.take(j + 1)[j - 1] == s[j - 1]);
            assert(s.take(j + 1).len() == j + 1);
            if s[j - 1].book_id@ == s[j as int].book_id@ {
                assert(sp_new =~= sp_old.push(j as int));
            } else {
                assert(sp_new =~= sp_old);
            }
            assert forall|k: int| 0 <= k < n_corr implies correction_edge_is(
                #[trigger] edges@[k],
                s[correction_plan(s)[k]],
            ) by {
                assert(edges@[k] == old_edges[k]);
            }
            assert forall|k: int| 0 <= k < sp_new.len() implies 1 <= #[trigger] sp_new[k] < j + 1 by {
                if k < sp_old.len() {
                    assert(sp_new[k] == sp_old[k]);
                }
            }
            assert forall|k: int| 0 <= k < sp_new.len() implies sequence_edge_is(
                #[trigger] edges@[n_corr + k],
                s[sp_new[k] - 1],
                s[sp_new[k]],
            ) by {
                if k < sp_old.len() {
                    assert(edges@[n_corr + k] == old_edges[n_corr + k]);
                    assert(sp_new[k] == sp_old[k]);
                }
            }
        }
        j += 1;
    }
    proof {
        assert(s.take(s.len() as int) =~= s);
    }
    Some(SealedActProjectionView {
        events,
        graph: SealedActProjectionGraphView { nodes, edges },
        provenance,
        legal_validity_claimed: false,
        authority_certified_claimed: false,
    })
}

} // verus!
