//! **Books**: the decisions behind creating, listing, closing and holding the minute books of an
//! entity.
//!
//! What is checked here: the custom-label rule of the `Other` kind, the two-phase signing order,
//! the archived-entity refusal, the audit scope of a layout edit, legal-hold requests and their
//! operator workflow, the order of a book's acts, and the bounded, searchable books page (filters,
//! folded full-text search, stable sort, keyset cursor, page window).
use vstd::prelude::*;

use crate::cluster_feed::{find_chars, find_from};
use crate::collection_page::{
    after_offset, apply_keyset, chars_before, cursor_decoding, cursor_text, debug_quoted,
    effective_limit, fields_text, fingerprint_of, first_n, keep_past_cursor, past_cursor,
    position_before, position_is_before, positions_of, query_fingerprint, search_key,
    unknown_order_message, cursor_with_offset_message, debug_str, FieldText, CollectionPage, CollectionPageQuery, CursorEnvelope, CursorPosition,
};
use crate::error::{refusal, ApiError, ApiErrorKind};
use crate::text::{chars_of, dec_nat, owned, push_str, string_from_chars, trim, trim_chars, u64_to_string};

verus! {

/// The kind of a minute book.
#[derive(Debug, Clone, Copy, PartialEq, Eq, Structural)]
pub enum BookKind {
    AssembleiaGeral,
    GerenciaAdministracao,
    ConselhoFiscal,
    Condominio,
    Other,
}

/// The lifecycle state of a minute book.
#[derive(Debug, Clone, Copy, PartialEq, Eq, Structural)]
pub enum BookState {
    Created,
    Open,
    Closed,
}

/// The name of a kind, as its `Debug` text.
pub open spec fn book_kind_name(kind: BookKind) -> Seq<char> {
    match kind {
        BookKind::AssembleiaGeral => "AssembleiaGeral"@,
        BookKind::GerenciaAdministracao => "GerenciaAdministracao"@,
        BookKind::ConselhoFiscal => "ConselhoFiscal"@,
        BookKind::Condominio => "Condominio"@,
        BookKind::Other => "Other"@,
    }
}

/// The name of a state, as its `Debug` text.
pub open spec fn book_state_name(state: BookState) -> Seq<char> {
    match state {
        BookState::Created => "Created"@,
        BookState::Open => "Open"@,
        BookState::Closed => "Closed"@,
    }
}

/// The words a kind is found by, in Portuguese and English.
pub open spec fn kind_search_words(kind: BookKind) -> Seq<char> {
    match kind {
        BookKind::AssembleiaGeral => "Assembleia Geral General Meeting"@,
        BookKind::GerenciaAdministracao => "Gerência Administração Gerencia Administracao Management Administration"@,
        BookKind::ConselhoFiscal => "Conselho Fiscal Audit Board"@,
        BookKind::Condominio => "Condomínio Condominio Condominium"@,
        BookKind::Other => "Outro Other"@,
    }
}

/// The words a state is found by, in Portuguese and English.
pub open spec fn state_search_words(state: BookState) -> Seq<char> {
    match state {
        BookState::Created => "Criado Created"@,
        BookState::Open => "Aberto Open"@,
        BookState::Closed => "Encerrado Closed"@,
    }
}

/// The `Debug` name of a kind.
pub fn kind_name(kind: BookKind) -> (r: &'static str)
    ensures
        r@ == book_kind_name(kind),
{
    match kind {
        BookKind::AssembleiaGeral => "AssembleiaGeral",
        BookKind::GerenciaAdministracao => "GerenciaAdministracao",
        BookKind::ConselhoFiscal => "ConselhoFiscal",
        BookKind::Condominio => "Condominio",
        BookKind::Other => "Other",
    }
}

/// The `Debug` name of a state.
pub fn state_name(state: BookState) -> (r: &'static str)
    ensures
        r@ == book_state_name(state),
{
    match state {
        BookState::Created => "Created",
        BookState::Open => "Open",
        BookState::Closed => "Closed",
    }
}

/// The search words of a kind.
pub fn book_kind_search_labels(kind: BookKind) -> (r: &'static str)
    ensures
        r@ == kind_search_words(kind),
{
    match kind {
        BookKind::AssembleiaGeral => "Assembleia Geral General Meeting",
        BookKind::GerenciaAdministracao => "Gerência Administração Gerencia Administracao Management Administration",
        BookKind::ConselhoFiscal => "Conselho Fiscal Audit Board",
        BookKind::Condominio => "Condomínio Condominio Condominium",
        BookKind::Other => "Outro Other",
    }
}

/// The search words of a state.
pub fn book_state_search_labels(state: BookState) -> (r: &'static str)
    ensures
        r@ == state_search_words(state),
{
    match state {
        BookState::Created => "Criado Created",
        BookState::Open => "Aberto Open",
        BookState::Closed => "Encerrado Closed",
    }
}

// =================================================================================================
// Creating and closing
// =================================================================================================

/// A trimmed optional text: `None` when absent or blank.
pub open spec fn trimmed_text(value: Option<String>) -> Option<Seq<char>> {
    match value {
        None => None,
        Some(v) => if trim(v@).len() == 0 {
            None
        } else {
            Some(trim(v@))
        },
    }
}

/// Whether `r` holds exactly the trimmed text (or nothing).
pub open spec fn holds_trimmed(r: Option<String>, value: Option<String>) -> bool {
    match trimmed_text(value) {
        None => r is None,
        Some(t) => r matches Some(s) && s@ == t,
    }
}

/// The trimmed, non-blank form of an optional text.
pub fn trimmed_non_blank(value: &Option<String>) -> (r: Option<String>)
    ensures
        holds_trimmed(r, *value),
{
    match value {
        None => None,
        Some(v) => {
            let t = trim_chars(v.as_str());
            if t.len() == 0 {
                None
            } else {
                Some(string_from_chars(&t))
            }
        },
    }
}

/// The custom-label rule as an outcome: a book of kind `Other` needs a non-blank `kind_label`, and
/// no other kind may carry one; the answer is the trimmed label (or none).
pub open spec fn kind_label_outcome(kind: BookKind, kind_label: Option<String>, r: Result<Option<String>, ApiError>) -> bool {
    if kind == BookKind::Other {
        if trimmed_text(kind_label) is None {
            refusal(r, ApiErrorKind::Unprocessable, "kind_label is required when kind is Other"@)
        } else {
            r matches Ok(l) && holds_trimmed(l, kind_label)
        }
    } else {
        if trimmed_text(kind_label) is Some {
            refusal(r, ApiErrorKind::Unprocessable, "kind_label is only allowed when kind is Other"@)
        } else {
            r matches Ok(l) && l is None
        }
    }
}

/// The custom-label rule: a book of kind `Other` needs a non-blank `kind_label`, and no other kind
/// may carry one. Answers the trimmed label (or none).
pub fn resolve_kind_label(kind: BookKind, kind_label: Option<String>) -> (r: Result<Option<String>, ApiError>)
    ensures
        kind_label_outcome(kind, kind_label, r),
{
    let trimmed = trimmed_non_blank(&kind_label);
    match kind {
        BookKind::Other => match trimmed {
            None => Err(
                ApiError::new(
                    ApiErrorKind::Unprocessable,
                    owned("kind_label is required when kind is Other"),
                ),
            ),
            Some(t) => Ok(Some(t)),
        },
        _ => match trimmed {
            Some(_) => Err(
                ApiError::new(
                    ApiErrorKind::Unprocessable,
                    owned("kind_label is only allowed when kind is Other"),
                ),
            ),
            None => Ok(None),
        },
    }
}

/// The refusal of a two-phase step on a deployment without durable storage: permanent in that
/// deployment, so it carries the `data_dir_required` code rather than inviting a retry.
pub fn durable_storage_required(closing: bool) -> (r: ApiError)
    ensures
        r.kind == ApiErrorKind::Unavailable,
        r.code == Some("data_dir_required"),
        r.message@ == (if closing {
            "two-phase book closing requires durable storage; no closing draft was created"@
        } else {
            "two-phase book creation requires durable storage; no book was created"@
        }),
{
    let m = if closing {
        owned("two-phase book closing requires durable storage; no closing draft was created")
    } else {
        owned("two-phase book creation requires durable storage; no book was created")
    };
    ApiError::new(ApiErrorKind::Unavailable, m).with_code("data_dir_required")
}

/// The message of a signatory without a capacity in the two-phase workflow.
pub open spec fn missing_capacity_message(index: nat) -> Seq<char> {
    "required_signatories["@ + dec_nat(index)
        + "].capacity is required for the two-phase signing workflow"@
}

/// The message of a signatory list longer than the signing order supports.
pub open spec fn too_many_signatories_message() -> Seq<char> {
    "required_signatories contains more signatories than the signing order supports"@
}

/// Whether signatory `i` stops the two-phase workflow: it has no capacity, or its index does not
/// fit the signing order.
pub open spec fn signatory_refused(has_capacity: Seq<bool>, i: int) -> bool {
    !has_capacity[i] || i > u16::MAX
}

/// **The two-phase signing order**: each required signatory, in order, needs a capacity and gets
/// its index as signing order; the first signatory that fails is reported.
pub fn two_phase_signing_orders(has_capacity: &Vec<bool>) -> (r: Result<Vec<u16>, ApiError>)
    ensures
        match r {
            Ok(orders) => {
                &&& forall|i: int| 0 <= i < has_capacity@.len() ==> !signatory_refused(has_capacity@, i)
                &&& orders@.len() == has_capacity@.len()
                &&& forall|i: int| 0 <= i < orders@.len() ==> orders@[i] == i
            },
            Err(e) => exists|i: int|
                0 <= i < has_capacity@.len() && signatory_refused(has_capacity@, i) && (forall|j: int|
                    0 <= j < i ==> !signatory_refused(has_capacity@, j)) && e.kind
                    == ApiErrorKind::Unprocessable && e.code is None && e.message@ == (if !has_capacity@[i] {
                    missing_capacity_message(i as nat)
                } else {
                    too_many_signatories_message()
                }),
        },
{
    let mut orders: Vec<u16> = Vec::new();
    let mut i: usize = 0;
    while i < has_capacity.len()
        invariant
            0 <= i <= has_capacity@.len(),
            orders@.len() == i,
            forall|k: int| 0 <= k < i ==> orders@[k] == k,
            forall|j: int| 0 <= j < i ==> !signatory_refused(has_capacity@, j),
        decreases has_capacity.len() - i,
    {
        if !has_capacity[i] {
            let mut m = owned("required_signatories[");
            push_str(&mut m, u64_to_string(i as u64).as_str());
            push_str(&mut m, "].capacity is required for the two-phase signing workflow");
            let e = ApiError::new(ApiErrorKind::Unprocessable, m);
            assert(signatory_refused(has_capacity@, i as int));
            return Err(e);
        }
        if i > 65535 {
            let e = ApiError::new(
                ApiErrorKind::Unprocessable,
                owned("required_signatories contains more signatories than the signing order supports"),
            );
            assert(signatory_refused(has_capacity@, i as int));
            return Err(e);
        }
        orders.push(i as u16);
        i += 1;
    }
    Ok(orders)
}

/// A two-phase close starts only on an open book.
pub fn two_phase_close_gate(state: BookState) -> (r: Result<(), ApiError>)
    ensures
        state == BookState::Open <==> r is Ok,
        r matches Err(e) ==> e.kind == ApiErrorKind::Conflict && e.code == Some("book_not_open")
            && e.message@ == "book is not Open; only an open book can start a two-phase close"@,
{
    match state {
        BookState::Open => Ok(()),
        _ => Err(
            ApiError::new(
                ApiErrorKind::Conflict,
                owned("book is not Open; only an open book can start a two-phase close"),
            ).with_code("book_not_open"),
        ),
    }
}

/// The message of an operation refused on an archived entity.
pub open spec fn archived_message(entity_id: Seq<char>, entity_name: Seq<char>, refused: Seq<char>) -> Seq<char> {
    "entity "@ + entity_id + " ("@ + entity_name + ") is archived: "@ + refused
        + ". Unarchive it first — everything already written about it stays readable, and work already in flight can still be finished."@
}

/// Refuse new authorship on an archived entity. Archiving withdraws only the invitation to start
/// new work; `refused` names what was refused, so the conflict reads as a sentence.
pub fn ensure_entity_not_archived(
    archived: bool,
    entity_id: &str,
    entity_name: &str,
    refused: &str,
) -> (r: Result<(), ApiError>)
    ensures
        !archived <==> r is Ok,
        r matches Err(e) ==> e.kind == ApiErrorKind::Conflict && e.code is None && e.message@
            == archived_message(entity_id@, entity_name@, refused@),
{
    if !archived {
        return Ok(());
    }
    let mut m = owned("entity ");
    push_str(&mut m, entity_id);
    push_str(&mut m, " (");
    push_str(&mut m, entity_name);
    push_str(&mut m, ") is archived: ");
    push_str(&mut m, refused);
    push_str(
        &mut m,
        ". Unarchive it first — everything already written about it stays readable, and work already in flight can still be finished.",
    );
    Err(ApiError::new(ApiErrorKind::Conflict, m))
}

/// What the one-shot opening of a book refuses, in order: a malformed opening date (checked before
/// any lock is taken), then the signatories, then an unknown entity (`404`, with no message), then an
/// archived entity, then the document layout, and last the kind-label rule. The date, signatory and
/// layout checks are the caller's; their results are handed in. `entity` is the owning entity's
/// (archived, id, name) when it exists. Answers the book's kind label.
pub fn one_shot_open_gates(
    date: Result<(), ApiError>,
    signatories: Result<(), ApiError>,
    entity: Option<(bool, &str, &str)>,
    layout: Result<(), ApiError>,
    kind: BookKind,
    kind_label: Option<String>,
) -> (r: Result<Option<String>, ApiError>)
    ensures
        date matches Err(e) ==> r == Err::<Option<String>, ApiError>(e),
        date is Ok ==> (signatories matches Err(e) ==> r == Err::<Option<String>, ApiError>(e)),
        date is Ok && signatories is Ok && entity is None ==> refusal(r, ApiErrorKind::NotFound, ""@),
        date is Ok && signatories is Ok ==> (entity matches Some((archived, id, name)) ==> {
            if archived {
                r matches Err(e) && e.kind == ApiErrorKind::Conflict && e.code is None && e.message@
                    == archived_message(id@, name@, "no new book can be opened on it"@)
            } else {
                match layout {
                    Err(e) => r == Err::<Option<String>, ApiError>(e),
                    Ok(_) => kind_label_outcome(kind, kind_label, r),
                }
            }
        }),
{
    if let Err(e) = date {
        return Err(e);
    }
    if let Err(e) = signatories {
        return Err(e);
    }
    let (archived, id, name) = match entity {
        None => {
            return Err(ApiError::new(ApiErrorKind::NotFound, owned("")));
        },
        Some(facts) => facts,
    };
    if let Err(e) = ensure_entity_not_archived(archived, id, name, "no new book can be opened on it") {
        return Err(e);
    }
    if let Err(e) = layout {
        return Err(e);
    }
    resolve_kind_label(kind, kind_label)
}

/// The ledger scope of a book's layout edit: a book still in `Created` has no chain of its own yet,
/// so the edit is audited on the tenant/entity chain; an opened book's edit joins its chain (with
/// the tenant prefix outside the default tenant).
pub open spec fn layout_audit_scope(
    created: bool,
    default_tenant: bool,
    tenant_id: Seq<char>,
    entity_id: Seq<char>,
    book_id: Seq<char>,
) -> Seq<char> {
    if created {
        "tenant:"@ + tenant_id + "/entity:"@ + entity_id
    } else if default_tenant {
        "entity:"@ + entity_id + "/book:"@ + book_id
    } else {
        "tenant:"@ + tenant_id + "/entity:"@ + entity_id + "/book:"@ + book_id
    }
}

/// The ledger scope of a book's layout edit.
pub fn document_layout_audit_scope(
    state: BookState,
    default_tenant: bool,
    tenant_id: &str,
    entity_id: &str,
    book_id: &str,
) -> (r: String)
    ensures
        r@ == layout_audit_scope(
            state == BookState::Created,
            default_tenant,
            tenant_id@,
            entity_id@,
            book_id@,
        ),
{
    if state == BookState::Created {
        let mut m = owned("tenant:");
        push_str(&mut m, tenant_id);
        push_str(&mut m, "/entity:");
        push_str(&mut m, entity_id);
        return m;
    }
    if default_tenant {
        let mut m = owned("entity:");
        push_str(&mut m, entity_id);
        push_str(&mut m, "/book:");
        push_str(&mut m, book_id);
        m
    } else {
        let mut m = owned("tenant:");
        push_str(&mut m, tenant_id);
        push_str(&mut m, "/entity:");
        push_str(&mut m, entity_id);
        push_str(&mut m, "/book:");
        push_str(&mut m, book_id);
        m
    }
}

/// The audit justification of a layout edit.
pub fn layout_justification(set: bool) -> (r: &'static str)
    ensures
        r@ == (if set {
            "book document layout override set"@
        } else {
            "book document layout override cleared"@
        }),
{
    if set {
        "book document layout override set"
    } else {
        "book document layout override cleared"
    }
}

// =================================================================================================
// Legal hold
// =================================================================================================

/// The actor recorded when a request names none.
pub fn default_actor() -> (r: String)
    ensures
        r@ == "system"@,
{
    owned("system")
}

/// `PUT …/legal-hold`: the reason and the acting operator.
#[derive(Debug, Clone)]
pub struct SetLegalHoldRequest {
    pub reason: String,
    pub actor: String,
}

/// `DELETE …/legal-hold`: the acting operator.
#[derive(Debug, Clone)]
pub struct ClearLegalHoldRequest {
    pub actor: String,
}

impl SetLegalHoldRequest {
    /// The trimmed hold reason; a blank reason is refused.
    pub fn validated_reason(&self) -> (r: Result<String, ApiError>)
        ensures
            trim(self.reason@).len() == 0 <==> r is Err,
            r matches Ok(s) ==> s@ == trim(self.reason@),
            r matches Err(e) ==> e.kind == ApiErrorKind::Unprocessable && e.code is None
                && e.message@ == "legal hold reason must not be empty"@,
    {
        let t = trim_chars(self.reason.as_str());
        if t.len() == 0 {
            return Err(
                ApiError::new(ApiErrorKind::Unprocessable, owned("legal hold reason must not be empty")),
            );
        }
        Ok(string_from_chars(&t))
    }
}

/// A recorded legal hold: its reason, who set it, and when (RFC 3339).
#[derive(Debug, Clone)]
pub struct LegalHold {
    pub reason: String,
    pub actor: String,
    pub set_at: String,
}

/// What the operator workflow says about a book's retention while a hold is (or is not) active.
#[derive(Debug, Clone)]
pub struct LegalHoldOperatorWorkflowView {
    pub status: &'static str,
    pub disposal_review_blocked: bool,
    pub review_note: &'static str,
    pub next_step: &'static str,
    pub destructive_disposal_completed: bool,
    pub disposal_approved: bool,
    pub legal_compliance_claimed: bool,
}

/// A book's legal hold as served.
#[derive(Debug, Clone)]
pub struct LegalHoldView {
    pub legal_hold: bool,
    pub reason: Option<String>,
    pub actor: Option<String>,
    pub set_at: Option<String>,
    pub operator_workflow: LegalHoldOperatorWorkflowView,
}

/// The operator workflow of a book with (or without) an active hold. It never claims a disposal
/// happened, was approved, or is legally compliant; an active hold blocks the disposal review.
pub fn legal_hold_operator_workflow(active: bool) -> (r: LegalHoldOperatorWorkflowView)
    ensures
        r.disposal_review_blocked == active,
        !r.destructive_disposal_completed,
        !r.disposal_approved,
        !r.legal_compliance_claimed,
        r.status@ == (if active {
            "blocked_by_legal_hold"@
        } else {
            "advisory_only"@
        }),
        r.review_note@ == (if active {
            "Local operator workflow/status evidence only; active book legal hold blocks retention/disposal review and is not disposal approval or legal compliance."@
        } else {
            "Local operator workflow/status evidence only; no active book legal hold is recorded here and this is not disposal approval or legal compliance."@
        }),
        r.next_step@ == (if active {
            "Keep disposal blocked and review the legal-hold evidence in a separate authorized workflow before any retention action."@
        } else {
            "Use retention dry-run/status review before any disposal action; this legal-hold view does not resolve candidates."@
        }),
{
    if active {
        LegalHoldOperatorWorkflowView {
            status: "blocked_by_legal_hold",
            disposal_review_blocked: true,
            review_note: "Local operator workflow/status evidence only; active book legal hold blocks retention/disposal review and is not disposal approval or legal compliance.",
            next_step: "Keep disposal blocked and review the legal-hold evidence in a separate authorized workflow before any retention action.",
            destructive_disposal_completed: false,
            disposal_approved: false,
            legal_compliance_claimed: false,
        }
    } else {
        LegalHoldOperatorWorkflowView {
            status: "advisory_only",
            disposal_review_blocked: false,
            review_note: "Local operator workflow/status evidence only; no active book legal hold is recorded here and this is not disposal approval or legal compliance.",
            next_step: "Use retention dry-run/status review before any disposal action; this legal-hold view does not resolve candidates.",
            destructive_disposal_completed: false,
            disposal_approved: false,
            legal_compliance_claimed: false,
        }
    }
}

impl LegalHoldView {
    /// The view of a book's hold (or of its absence).
    pub fn from_hold(hold: Option<&LegalHold>) -> (r: LegalHoldView)
        ensures
            r.legal_hold == hold is Some,
            r.operator_workflow.disposal_review_blocked == hold is Some,
            match hold {
                Some(h) => r.reason == Some(h.reason) && r.actor == Some(h.actor) && r.set_at == Some(
                    h.set_at,
                ),
                None => r.reason is None && r.actor is None && r.set_at is None,
            },
    {
        match hold {
            Some(h) => LegalHoldView {
                legal_hold: true,
                reason: Some(h.reason.clone()),
                actor: Some(h.actor.clone()),
                set_at: Some(h.set_at.clone()),
                operator_workflow: legal_hold_operator_workflow(true),
            },
            None => LegalHoldView {
                legal_hold: false,
                reason: None,
                actor: None,
                set_at: None,
                operator_workflow: legal_hold_operator_workflow(false),
            },
        }
    }
}

// =================================================================================================
// Acts of a book
// =================================================================================================

/// Whether an act numbered `a` is listed before one numbered `b`: numbered acts by number, and
/// every numbered act before the unnumbered ones.
pub open spec fn ata_before(a: Option<u64>, b: Option<u64>) -> bool {
    match (a, b) {
        (Some(x), Some(y)) => x < y,
        (Some(_), None) => true,
        _ => false,
    }
}

/// The listing order of a book's acts, as `(ata number, row)` pairs.
pub open spec fn ata_pair_before(a: (Option<u64>, usize), b: (Option<u64>, usize)) -> bool {
    ata_before(a.0, b.0)
}

/// The rows of a book's acts in listing order: stably by ata number, unnumbered last.
pub fn acts_in_ata_order(numbers: &Vec<Option<u64>>) -> (r: Vec<usize>)
    ensures
        ({
            let pairs = Seq::new(numbers@.len(), |i: int| (numbers@[i], i as usize));
            let sorted = crate::sorting::sorted_stably(pairs, |a: (Option<u64>, usize), b: (Option<u64>, usize)| ata_pair_before(a, b));
            &&& r@.len() == sorted.len()
            &&& forall|k: int| 0 <= k < r@.len() ==> r@[k] == sorted[k].1
        }),
{
    let ghost pairs = Seq::new(numbers@.len(), |i: int| (numbers@[i], i as usize));
    let mut v: Vec<(Option<u64>, usize)> = Vec::new();
    let mut i: usize = 0;
    while i < numbers.len()
        invariant
            0 <= i <= numbers@.len(),
            v@ == pairs.take(i as int),
            pairs == Seq::new(numbers@.len(), |i: int| (numbers@[i], i as usize)),
        decreases numbers.len() - i,
    {
        v.push((numbers[i], i));
        assert(v@ =~= pairs.take(i + 1));
        i += 1;
    }
    assert(pairs.take(numbers@.len() as int) =~= pairs);
    let ghost before = |a: (Option<u64>, usize), b: (Option<u64>, usize)| ata_pair_before(a, b);
    let lt = |a: &(Option<u64>, usize), b: &(Option<u64>, usize)| -> (r: bool)
        ensures
            r == ata_pair_before(*a, *b),
        {
            match (a.0, b.0) {
                (Some(x), Some(y)) => x < y,
                (Some(_), None) => true,
                _ => false,
            }
        };
    let sorted = crate::sorting::sort_stably(v, lt, Ghost(before));
    let mut out: Vec<usize> = Vec::new();
    let mut k: usize = 0;
    while k < sorted.len()
        invariant
            0 <= k <= sorted@.len(),
            out@.len() == k,
            forall|j: int| 0 <= j < k ==> out@[j] == sorted@[j].1,
        decreases sorted.len() - k,
    {
        out.push(sorted[k].1);
        k += 1;
    }
    out
}

// =================================================================================================
// The books page
// =================================================================================================

/// What the books page shows of a book.
#[derive(Debug, Clone)]
pub struct BookSummary {
    pub id: String,
    pub entity_id: String,
    pub kind: BookKind,
    pub state: BookState,
    pub last_ata_number: u64,
    pub purpose: Option<String>,
    pub opening_date: Option<String>,
    pub closing_date: Option<String>,
    pub predecessor: Option<String>,
    /// The words of the required signatories (names, capacities, e-mails, legacy labels), in order.
    pub signatory_words: Vec<String>,
}

/// One row of the books page: the book, its entity's name (when the caller may read the entity)
/// and its custom kind label.
#[derive(Debug, Clone)]
pub struct BookPageItemView {
    pub book: BookSummary,
    pub entity_name: Option<String>,
    pub kind_label: Option<String>,
}

/// A book offered to the books page, with the facts its filters read: whether the caller may read
/// it, whether it has a predecessor, and its opening date as a day number.
#[derive(Debug, Clone)]
pub struct BookCandidate {
    pub item: BookPageItemView,
    pub readable: bool,
    pub has_predecessor: bool,
    pub opening_day: Option<i64>,
}

/// The query of `GET /v1/books/page`.
#[derive(Debug, Clone)]
pub struct BooksPageQuery {
    pub q: Option<String>,
    pub offset: usize,
    pub cursor: Option<String>,
    pub limit: Option<usize>,
    pub sort: Option<String>,
    pub order: Option<String>,
    pub entity_id: Option<String>,
    pub kind: Option<BookKind>,
    pub state: Option<BookState>,
    pub activity: Option<String>,
    pub lineage: Option<String>,
    pub opened_from: Option<String>,
    pub opened_to: Option<String>,
}

fn clone_opt(o: &Option<String>) -> (r: Option<String>)
    ensures
        r == *o,
{
    match o {
        None => None,
        Some(s) => Some(s.clone()),
    }
}

impl BooksPageQuery {
    /// The generic page request inside the books query.
    pub fn page(&self) -> (r: CollectionPageQuery)
        ensures
            r.q == self.q,
            r.offset == self.offset,
            r.cursor == self.cursor,
            r.limit == self.limit,
            r.sort == self.sort,
            r.order == self.order,
    {
        CollectionPageQuery {
            q: clone_opt(&self.q),
            offset: self.offset,
            cursor: clone_opt(&self.cursor),
            limit: self.limit,
            sort: clone_opt(&self.sort),
            order: clone_opt(&self.order),
        }
    }
}

/// The text of an optional field (empty when absent).
pub open spec fn opt_text(o: Option<String>) -> Seq<char> {
    match o {
        Some(s) => s@,
        None => Seq::empty(),
    }
}

/// Words joined by single spaces.
pub open spec fn joined(ws: Seq<Seq<char>>) -> Seq<char>
    decreases ws.len(),
{
    if ws.len() == 0 {
        Seq::empty()
    } else if ws.len() == 1 {
        ws[0]
    } else {
        joined(ws.drop_last()) + " "@ + ws.last()
    }
}

/// The texts of a list of strings.
pub open spec fn texts(ws: Seq<String>) -> Seq<Seq<char>> {
    Seq::new(ws.len(), |i: int| ws[i]@)
}

/// The fields a books-page search looks through, in order.
pub open spec fn book_search_fields(v: BookPageItemView) -> Seq<Seq<char>> {
    seq![
        v.book.id@,
        v.book.entity_id@,
        opt_text(v.entity_name),
        book_kind_name(v.book.kind),
        book_state_name(v.book.state),
        kind_search_words(v.book.kind),
        state_search_words(v.book.state),
        opt_text(v.kind_label),
        opt_text(v.book.purpose),
        opt_text(v.book.opening_date),
        opt_text(v.book.closing_date),
        opt_text(v.book.predecessor),
        dec_nat(v.book.last_ata_number as nat),
        joined(texts(v.book.signatory_words@)),
    ]
}

/// Whether `needle` occurs in `hay`.
pub open spec fn text_contains(hay: Seq<char>, needle: Seq<char>) -> bool {
    needle.len() == 0 || find_from(hay, needle, 0) is Some
}

/// Whether a row matches a folded search needle.
pub open spec fn book_matches(v: BookPageItemView, needle: Seq<char>) -> bool {
    text_contains(search_key(joined(book_search_fields(v))), needle)
}

/// The strings joined by single spaces.
pub fn join_words(parts: &Vec<String>) -> (r: String)
    ensures
        r@ == joined(texts(parts@)),
{
    let mut out = String::new();
    let mut i: usize = 0;
    while i < parts.len()
        invariant
            0 <= i <= parts@.len(),
            out@ == joined(texts(parts@).take(i as int)),
        decreases parts.len() - i,
    {
        proof {
            assert(texts(parts@).take(i + 1).drop_last() =~= texts(parts@).take(i as int));
        }
        if i > 0 {
            push_str(&mut out, " ");
        }
        push_str(&mut out, parts[i].as_str());
        proof {
            if i == 0 {
                assert(out@ =~= texts(parts@).take(1)[0]);
            }
        }
        i += 1;
    }
    assert(texts(parts@).take(parts@.len() as int) =~= texts(parts@));
    out
}

fn opt_str(o: &Option<String>) -> (r: String)
    ensures
        r@ == opt_text(*o),
{
    match o {
        Some(s) => s.clone(),
        None => String::new(),
    }
}

/// The text a books-page search looks through.
pub fn book_search_text(v: &BookPageItemView) -> (r: String)
    ensures
        r@ == joined(book_search_fields(*v)),
{
    let mut parts: Vec<String> = Vec::new();
    parts.push(v.book.id.clone());
    parts.push(v.book.entity_id.clone());
    parts.push(opt_str(&v.entity_name));
    parts.push(owned(kind_name(v.book.kind)));
    parts.push(owned(state_name(v.book.state)));
    parts.push(owned(book_kind_search_labels(v.book.kind)));
    parts.push(owned(book_state_search_labels(v.book.state)));
    parts.push(opt_str(&v.kind_label));
    parts.push(opt_str(&v.book.purpose));
    parts.push(opt_str(&v.book.opening_date));
    parts.push(opt_str(&v.book.closing_date));
    parts.push(opt_str(&v.book.predecessor));
    parts.push(u64_to_string(v.book.last_ata_number));
    parts.push(join_words(&v.book.signatory_words));
    let r = join_words(&parts);
    assert(texts(parts@) =~= book_search_fields(*v));
    r
}

/// Whether `needle` occurs in `hay`.
pub fn contains_text(hay: &str, needle: &str) -> (r: bool)
    ensures
        r == text_contains(hay@, needle@),
{
    let h = chars_of(hay);
    let n = chars_of(needle);
    if n.len() == 0 {
        return true;
    }
    find_chars(&h, &n, 0).is_some()
}

/// The sort key of a row: its kind or state name for those sorts, its id otherwise.
pub open spec fn book_sort_key(v: BookPageItemView, sort: Seq<char>) -> Seq<char> {
    if sort == "kind"@ {
        book_kind_name(v.book.kind)
    } else if sort == "state"@ {
        book_state_name(v.book.state)
    } else {
        v.book.id@
    }
}

/// The cursor position of a row under a sort.
pub fn book_page_position(book: &BookPageItemView, sort: &str) -> (r: CursorPosition)
    ensures
        r.key@ == book_sort_key(*book, sort@),
        r.id@ == book.book.id@,
{
    proof {
        reveal_strlit("kind");
        reveal_strlit("state");
    }
    if crate::text::str_eq(sort, "kind") {
        CursorPosition::new(kind_name(book.book.kind), book.book.id.as_str())
    } else if crate::text::str_eq(sort, "state") {
        CursorPosition::new(state_name(book.book.state), book.book.id.as_str())
    } else {
        CursorPosition::new(book.book.id.as_str(), book.book.id.as_str())
    }
}

/// Whether row `a` is listed before row `b`: by sort key then id, reversed for a descending order.
pub open spec fn book_row_before(a: BookPageItemView, b: BookPageItemView, sort: Seq<char>, descending: bool) -> bool {
    let (x, y) = if descending {
        (b, a)
    } else {
        (a, b)
    };
    chars_before(book_sort_key(x, sort), book_sort_key(y, sort)) || (book_sort_key(x, sort)
        == book_sort_key(y, sort) && chars_before(x.book.id@, y.book.id@))
}

/// Whether a candidate passes the books-page filters (entity, kind, state, activity, lineage,
/// opening dates), may be read by the caller, and matches the search.
pub open spec fn book_passes(
    c: BookCandidate,
    q: BooksPageQuery,
    from: Option<i64>,
    to: Option<i64>,
    needle: Option<Seq<char>>,
) -> bool {
    &&& match q.entity_id {
        Some(e) => c.item.book.entity_id@ == e@,
        None => true,
    }
    &&& match q.kind {
        Some(k) => c.item.book.kind == k,
        None => true,
    }
    &&& match q.state {
        Some(st) => c.item.book.state == st,
        None => true,
    }
    &&& match q.activity {
        Some(a) => if a@ == "has-acts"@ {
            c.item.book.last_ata_number > 0
        } else if a@ == "no-acts"@ {
            c.item.book.last_ata_number == 0
        } else {
            true
        },
        None => true,
    }
    &&& match q.lineage {
        Some(l) => if l@ == "successor"@ {
            c.has_predecessor
        } else if l@ == "origin"@ {
            !c.has_predecessor
        } else {
            true
        },
        None => true,
    }
    &&& match from {
        Some(f) => c.opening_day matches Some(d) && d >= f,
        None => true,
    }
    &&& match to {
        Some(t) => c.opening_day matches Some(d) && d <= t,
        None => true,
    }
    &&& c.readable
    &&& match needle {
        Some(n) => book_matches(c.item, n),
        None => true,
    }
}

/// The rows that pass the filters, in the order given.
pub open spec fn visible_books(
    cs: Seq<BookCandidate>,
    q: BooksPageQuery,
    from: Option<i64>,
    to: Option<i64>,
    needle: Option<Seq<char>>,
) -> Seq<BookPageItemView>
    decreases cs.len(),
{
    if cs.len() == 0 {
        Seq::empty()
    } else {
        let rest = visible_books(cs.drop_last(), q, from, to, needle);
        if book_passes(cs.last(), q, from, to, needle) {
            rest.push(cs.last().item)
        } else {
            rest
        }
    }
}

fn opt_str_eq(o: &Option<String>, v: &str) -> (r: bool)
    ensures
        r == (o matches Some(s) && s@ == v@),
{
    match o {
        Some(s) => crate::text::str_eq(s.as_str(), v),
        None => false,
    }
}

fn book_passes_exec(
    c: &BookCandidate,
    q: &BooksPageQuery,
    from: Option<i64>,
    to: Option<i64>,
    needle: &Option<String>,
) -> (r: bool)
    ensures
        r == book_passes(
            *c,
            *q,
            from,
            to,
            match needle {
                Some(n) => Some(n@),
                None => None,
            },
        ),
{
    proof {
        reveal_strlit("has-acts");
        reveal_strlit("no-acts");
        reveal_strlit("successor");
        reveal_strlit("origin");
        assert("no-acts"@.len() != "has-acts"@.len());
        assert("origin"@.len() != "successor"@.len());
    }
    let b = &c.item.book;
    match &q.entity_id {
        Some(e) => {
            if !crate::text::str_eq(b.entity_id.as_str(), e.as_str()) {
                return false;
            }
        },
        None => {},
    }
    match q.kind {
        Some(k) => {
            if b.kind != k {
                return false;
            }
        },
        None => {},
    }
    match q.state {
        Some(st) => {
            if b.state != st {
                return false;
            }
        },
        None => {},
    }
    if opt_str_eq(&q.activity, "has-acts") && b.last_ata_number == 0 {
        return false;
    }
    if opt_str_eq(&q.activity, "no-acts") && b.last_ata_number != 0 {
        return false;
    }
    if opt_str_eq(&q.lineage, "successor") && !c.has_predecessor {
        return false;
    }
    if opt_str_eq(&q.lineage, "origin") && c.has_predecessor {
        return false;
    }
    match from {
        Some(f) => match c.opening_day {
            Some(d) => {
                if d < f {
                    return false;
                }
            },
            None => {
                return false;
            },
        },
        None => {},
    }
    match to {
        Some(t) => match c.opening_day {
            Some(d) => {
                if d > t {
                    return false;
                }
            },
            None => {
                return false;
            },
        },
        None => {},
    }
    if !c.readable {
        return false;
    }
    match needle {
        Some(n) => {
            let text = book_search_text(&c.item);
            let folded = crate::collection_page::fold_search(text.as_str());
            contains_text(folded.as_str(), n.as_str())
        },
        None => true,
    }
}

/// The rows of the candidates that pass the filters, in order.
pub fn filter_books(
    cands: Vec<BookCandidate>,
    q: &BooksPageQuery,
    from: Option<i64>,
    to: Option<i64>,
    needle: &Option<String>,
) -> (r: Vec<BookPageItemView>)
    ensures
        r@ == visible_books(
            cands@,
            *q,
            from,
            to,
            match needle {
                Some(n) => Some(n@),
                None => None,
            },
        ),
{
    let ghost nv = match needle {
        Some(n) => Some(n@),
        None => None,
    };
    let ghost src = cands@;
    let mut out: Vec<BookPageItemView> = Vec::new();
    for c in it: cands.into_iter()
        invariant
            it.seq() == src,
            nv == match needle {
                Some(n) => Some(n@),
                None => None,
            },
            out@ == visible_books(src.take(it.index() as int), *q, from, to, nv),
    {
        let ghost i = it.index();
        proof {
            assert(src.take(i + 1).drop_last() =~= src.take(i));
            assert(src.take(i + 1).last() == c);
        }
        if book_passes_exec(&c, q, from, to, needle) {
            out.push(c.item);
        }
    }
    assert(src.take(src.len() as int) =~= src);
    out
}

/// The rows that lie strictly after the cursor, in their order, under a sort.
pub open spec fn books_past_cursor(
    rows: Seq<BookPageItemView>,
    sort: Seq<char>,
    cursor: CursorPosition,
    descending: bool,
) -> Seq<BookPageItemView>
    decreases rows.len(),
{
    if rows.len() == 0 {
        Seq::empty()
    } else {
        let rest = books_past_cursor(rows.drop_last(), sort, cursor, descending);
        let last = rows.last();
        let key = book_sort_key(last, sort);
        let after = if descending {
            chars_before(key, cursor.key@) || (key == cursor.key@ && chars_before(
                last.book.id@,
                cursor.id@,
            ))
        } else {
            chars_before(cursor.key@, key) || (cursor.key@ == key && chars_before(
                cursor.id@,
                last.book.id@,
            ))
        };
        if after {
            rest.push(last)
        } else {
            rest
        }
    }
}

proof fn lemma_books_past_cursor(
    rows: Seq<BookPageItemView>,
    ps: Seq<CursorPosition>,
    sort: Seq<char>,
    cursor: CursorPosition,
    descending: bool,
)
    requires
        ps.len() == rows.len(),
        forall|k: int|
            0 <= k < rows.len() ==> (#[trigger] ps[k]).key@ == book_sort_key(rows[k], sort)
                && ps[k].id@ == rows[k].book.id@,
    ensures
        keep_past_cursor(rows, ps, cursor, descending) == books_past_cursor(rows, sort, cursor, descending),
    decreases rows.len(),
{
    if rows.len() > 0 {
        let n = rows.len() - 1;
        assert(ps[n].key@ == book_sort_key(rows[n], sort));
        lemma_books_past_cursor(rows.drop_last(), ps.drop_last(), sort, cursor, descending);
    }
}

/// Whether a books page answers a query over the visible rows (already sorted), given the decoded
/// cursor and the query fingerprint.
pub open spec fn books_page_is(
    page: CollectionPage<BookPageItemView>,
    sorted: Seq<BookPageItemView>,
    sort: Seq<char>,
    descending: bool,
    cursor: Option<CursorPosition>,
    offset: usize,
    limit: usize,
    fingerprint: Seq<char>,
) -> bool {
    let kept = match cursor {
        None => sorted,
        Some(c) => books_past_cursor(sorted, sort, c, descending),
    };
    let cursor_mode = cursor is Some;
    let window = if !cursor_mode && offset != 0 {
        after_offset(kept, offset as int)
    } else {
        kept
    };
    &&& page.items@ == first_n(window, limit as int)
    &&& page.offset == offset
    &&& page.limit == limit
    &&& page.has_more == (window.len() > limit)
    &&& page.next_offset == (if !cursor_mode && page.has_more {
        Some((offset + limit) as usize)
    } else {
        None::<usize>
    })
    &&& if page.has_more && limit > 0 {
        page.next_cursor matches Some(t) && t@ == cursor_text(
            "books"@,
            fingerprint,
            book_sort_key(window[limit - 1], sort),
            window[limit - 1].book.id@,
        )
    } else {
        page.next_cursor is None
    }
}

/// Sort, cut after the cursor, and cut out the page.
fn books_page_of(
    visible: Vec<BookPageItemView>,
    sort: &str,
    descending: bool,
    cursor: Option<CursorPosition>,
    offset: usize,
    limit: usize,
    fingerprint: &str,
) -> (r: CollectionPage<BookPageItemView>)
    requires
        limit < usize::MAX,
    ensures
        books_page_is(
            r,
            crate::sorting::sorted_stably(
                visible@,
                |a: BookPageItemView, b: BookPageItemView| book_row_before(a, b, sort@, descending),
            ),
            sort@,
            descending,
            cursor,
            offset,
            limit,
            fingerprint@,
        ),
{
    let ghost before = |a: BookPageItemView, b: BookPageItemView| book_row_before(a, b, sort@, descending);
    let lt = |a: &BookPageItemView, b: &BookPageItemView| -> (r: bool)
        ensures
            r == book_row_before(*a, *b, sort@, descending),
        {
            let pa = book_page_position(a, sort);
            let pb = book_page_position(b, sort);
            if descending {
                position_is_before(&pb, &pa)
            } else {
                position_is_before(&pa, &pb)
            }
        };
    let mut sorted = crate::sorting::sort_stably(visible, lt, Ghost(before));
    let ghost sv = sorted@;
    let position = |b: &BookPageItemView| -> (p: CursorPosition)
        ensures
            p.key@ == book_sort_key(*b, sort@),
            p.id@ == b.book.id@,
        { book_page_position(b, sort) };
    apply_keyset(&mut sorted, cursor.as_ref(), descending, position);
    let cursor_mode = cursor.is_some();
    proof {
        match cursor {
            None => {},
            Some(c) => {
                let ps = choose|ps: Seq<CursorPosition>|
                    #[trigger] positions_of(position, sv, ps) && sorted@ == keep_past_cursor(
                        sv,
                        ps,
                        c,
                        descending,
                    );
                assert forall|k: int| 0 <= k < sv.len() implies (#[trigger] ps[k]).key@
                    == book_sort_key(sv[k], sort@) && ps[k].id@ == sv[k].book.id@ by {
                    assert(position.ensures((&sv[k],), ps[k]));
                }
                lemma_books_past_cursor(sv, ps, sort@, c, descending);
            },
        }
    }
    let page = CollectionPage::from_keyset_sorted(
        sorted,
        offset,
        limit,
        cursor_mode,
        "books",
        fingerprint,
        position,
    );
    proof {
        reveal_strlit("books");
    }
    page
}

/// The message of an unknown books sort.
pub open spec fn unknown_book_sort_message(sort: Seq<char>) -> Seq<char> {
    "unknown book sort "@ + debug_quoted(sort) + ": expected \"id\", \"kind\" or \"state\""@
}

/// The message of an unknown activity filter.
pub open spec fn unknown_activity_message() -> Seq<char> {
    "unknown book activity filter: expected \"has-acts\" or \"no-acts\""@
}

/// The message of an unknown lineage filter.
pub open spec fn unknown_lineage_message() -> Seq<char> {
    "unknown book lineage filter: expected \"successor\" or \"origin\""@
}

/// The sort a books query asks for (`id` when none).
pub open spec fn books_sort(q: BooksPageQuery) -> Seq<char> {
    match q.sort {
        Some(s) => s@,
        None => "id"@,
    }
}

/// The folded search needle of a query, if it has a non-blank one.
pub open spec fn books_needle(q: BooksPageQuery) -> Option<Seq<char>> {
    match q.q {
        None => None,
        Some(t) => if trim(t@).len() == 0 {
            None
        } else {
            Some(search_key(trim(t@)))
        },
    }
}

/// Whether an optional filter text is absent or one of two accepted values.
pub open spec fn one_of(o: Option<String>, a: Seq<char>, b: Seq<char>) -> bool {
    match o {
        None => true,
        Some(v) => v@ == a || v@ == b,
    }
}

/// Every query dimension that defines the ordered books result set.
pub open spec fn books_fingerprint_fields(q: BooksPageQuery, descending: bool) -> Seq<FieldText> {
    seq![
        ("q"@, match books_needle(q) {
            Some(n) => n,
            None => Seq::empty(),
        }),
        ("sort"@, books_sort(q)),
        ("order"@, if descending {
            "desc"@
        } else {
            "asc"@
        }),
        ("entity_id"@, opt_text(q.entity_id)),
        ("kind"@, match q.kind {
            Some(k) => book_kind_name(k),
            None => Seq::empty(),
        }),
        ("state"@, match q.state {
            Some(st) => book_state_name(st),
            None => Seq::empty(),
        }),
        ("activity"@, opt_text(q.activity)),
        ("lineage"@, opt_text(q.lineage)),
        ("opened_from"@, opt_text(q.opened_from)),
        ("opened_to"@, opt_text(q.opened_to)),
    ]
}

/// The fingerprint of a books query.
pub fn books_fingerprint(query: &BooksPageQuery, search: &Option<String>, sort: &str, descending: bool) -> (r: String)
    requires
        match search {
            Some(n) => books_needle(*query) == Some(n@),
            None => books_needle(*query) is None,
        },
        sort@ == books_sort(*query),
    ensures
        r@ == fingerprint_of(books_fingerprint_fields(*query, descending)),
{
    let mut fields: Vec<(&str, String)> = Vec::new();
    fields.push(("q", opt_str(search)));
    fields.push(("sort", owned(sort)));
    fields.push(("order", owned(if descending { "desc" } else { "asc" })));
    fields.push(("entity_id", opt_str(&query.entity_id)));
    fields.push(("kind", match query.kind {
        Some(k) => owned(kind_name(k)),
        None => String::new(),
    }));
    fields.push(("state", match query.state {
        Some(st) => owned(state_name(st)),
        None => String::new(),
    }));
    fields.push(("activity", opt_str(&query.activity)));
    fields.push(("lineage", opt_str(&query.lineage)));
    fields.push(("opened_from", opt_str(&query.opened_from)));
    fields.push(("opened_to", opt_str(&query.opened_to)));
    let r = query_fingerprint(fields);
    assert(fields_text(fields@) =~= books_fingerprint_fields(*query, descending));
    r
}

/// The first refusal a books query earns before any data is read: an unknown order, an unknown
/// sort, an unknown activity filter, an unknown lineage filter — or none.
pub open spec fn books_query_refusal(q: BooksPageQuery) -> Option<Seq<char>> {
    let sort = books_sort(q);
    if q.order matches Some(o) && o@ != "asc"@ && o@ != "desc"@ {
        Some(unknown_order_message(q.order->Some_0@))
    } else if !(sort == "id"@ || sort == "kind"@ || sort == "state"@) {
        Some(unknown_book_sort_message(sort))
    } else if !one_of(q.activity, "has-acts"@, "no-acts"@) {
        Some(unknown_activity_message())
    } else if !one_of(q.lineage, "successor"@, "origin"@) {
        Some(unknown_lineage_message())
    } else {
        None
    }
}

/// Whether a books query asks for a descending order.
pub open spec fn books_descending(q: BooksPageQuery) -> bool {
    q.order matches Some(o) && o@ == "desc"@
}

/// Check a books query's order, sort and filters; answers whether the order is descending.
pub fn check_books_query(query: &BooksPageQuery) -> (r: Result<bool, ApiError>)
    ensures
        match books_query_refusal(*query) {
            Some(m) => refusal(r, ApiErrorKind::Unprocessable, m),
            None => r == Ok::<bool, ApiError>(books_descending(*query)),
        },
{
    proof {
        reveal_strlit("id");
        reveal_strlit("kind");
        reveal_strlit("state");
        reveal_strlit("asc");
        reveal_strlit("desc");
        assert("asc"@.len() != "desc"@.len());
    }
    let page_query = query.page();
    let descending = match page_query.descending() {
        Ok(d) => d,
        Err(e) => {
            return Err(e);
        },
    };
    let sort: &str = match &query.sort {
        Some(s) => s.as_str(),
        None => "id",
    };
    if !(crate::text::str_eq(sort, "id") || crate::text::str_eq(sort, "kind")
        || crate::text::str_eq(sort, "state")) {
        let mut m = owned("unknown book sort ");
        push_str(&mut m, debug_str(sort).as_str());
        push_str(&mut m, ": expected \"id\", \"kind\" or \"state\"");
        return Err(ApiError::new(ApiErrorKind::Unprocessable, m));
    }
    match &query.activity {
        Some(a) => {
            if !(crate::text::str_eq(a.as_str(), "has-acts") || crate::text::str_eq(a.as_str(), "no-acts")) {
                return Err(
                    ApiError::new(
                        ApiErrorKind::Unprocessable,
                        owned("unknown book activity filter: expected \"has-acts\" or \"no-acts\""),
                    ),
                );
            }
        },
        None => {},
    }
    match &query.lineage {
        Some(l) => {
            if !(crate::text::str_eq(l.as_str(), "successor") || crate::text::str_eq(l.as_str(), "origin")) {
                return Err(
                    ApiError::new(
                        ApiErrorKind::Unprocessable,
                        owned("unknown book lineage filter: expected \"successor\" or \"origin\""),
                    ),
                );
            }
        },
        None => {},
    }
    Ok(descending)
}

/// What the books page answers for a valid query, given the parsed opening-date bounds.
pub open spec fn books_listing<P: Fn(&[u8]) -> Option<CursorEnvelope>>(
    query: BooksPageQuery,
    candidates: Seq<BookCandidate>,
    from: Option<i64>,
    to: Option<i64>,
    parse: P,
    r: Result<CollectionPage<BookPageItemView>, ApiError>,
) -> bool {
    let sort = books_sort(query);
    let descending = books_descending(query);
    let limit = effective_limit(query.limit);
    let fp = fingerprint_of(books_fingerprint_fields(query, descending));
    let sorted = crate::sorting::sorted_stably(
        visible_books(candidates, query, from, to, books_needle(query)),
        |a: BookPageItemView, b: BookPageItemView| book_row_before(a, b, sort, descending),
    );
    match query.cursor {
        None => r matches Ok(page) && books_page_is(
            page,
            sorted,
            sort,
            descending,
            None,
            query.offset,
            limit,
            fp,
        ),
        Some(c) => if query.offset != 0 {
            refusal(r, ApiErrorKind::Unprocessable, cursor_with_offset_message())
        } else {
            exists|d: Result<CursorPosition, ApiError>|
                #[trigger] cursor_decoding(parse, c@, "books"@, fp, d) && match d {
                    Err(e) => r == Err::<CollectionPage<BookPageItemView>, ApiError>(e),
                    Ok(p) => r matches Ok(page) && books_page_is(
                        page,
                        sorted,
                        sort,
                        descending,
                        Some(p),
                        0,
                        limit,
                        fp,
                    ),
                }
        },
    }
}

/// Whether a book's lineage is what a lineage filter asks for: a book with a predecessor for
/// `successor`, a book without one for `origin`; any book otherwise.
pub open spec fn lineage_honoured(lineage: Option<String>, has_predecessor: bool) -> bool {
    match lineage {
        Some(l) => (l@ == "successor"@ ==> has_predecessor) && (l@ == "origin"@ ==> !has_predecessor),
        None => true,
    }
}

/// Whether a book's acts are what an activity filter asks for: some for `has-acts`, none for
/// `no-acts`; any otherwise.
pub open spec fn activity_honoured(activity: Option<String>, last_ata_number: u64) -> bool {
    match activity {
        Some(a) => (a@ == "has-acts"@ ==> last_ata_number > 0) && (a@ == "no-acts"@ ==> last_ata_number == 0),
        None => true,
    }
}

/// Whether a candidate meets what the query asks of it: its entity, kind and state when named, its
/// acts and lineage when filtered, and its opening day within the bounds (a bound excludes a book
/// with no opening day).
pub open spec fn candidate_asked_for(c: BookCandidate, q: BooksPageQuery, from: Option<i64>, to: Option<i64>) -> bool {
    &&& (q.entity_id matches Some(e) ==> c.item.book.entity_id@ == e@)
    &&& (q.kind matches Some(k) ==> c.item.book.kind == k)
    &&& (q.state matches Some(st) ==> c.item.book.state == st)
    &&& activity_honoured(q.activity, c.item.book.last_ata_number)
    &&& lineage_honoured(q.lineage, c.has_predecessor)
    &&& (from matches Some(f) ==> (c.opening_day matches Some(d) && d >= f))
    &&& (to matches Some(t) ==> (c.opening_day matches Some(d) && d <= t))
}

/// Whether row `x` is the row of a candidate the caller may read and that meets the query, and
/// matches the search when there is one.
pub open spec fn row_of_listed_candidate(
    cs: Seq<BookCandidate>,
    q: BooksPageQuery,
    from: Option<i64>,
    to: Option<i64>,
    needle: Option<Seq<char>>,
    x: BookPageItemView,
) -> bool {
    exists|j: int|
        0 <= j < cs.len() && (#[trigger] cs[j]).item == x && cs[j].readable && candidate_asked_for(cs[j], q, from, to)
            && (needle matches Some(n) ==> book_matches(x, n))
}

/// Every visible row is the row of a readable candidate whose lineage the query asks for.
proof fn lemma_visible_rows_are_listed(
    cs: Seq<BookCandidate>,
    q: BooksPageQuery,
    from: Option<i64>,
    to: Option<i64>,
    needle: Option<Seq<char>>,
)
    ensures
        forall|k: int|
            0 <= k < visible_books(cs, q, from, to, needle).len() ==> row_of_listed_candidate(
                cs,
                q,
                from,
                to,
                needle,
                #[trigger] visible_books(cs, q, from, to, needle)[k],
            ),
    decreases cs.len(),
{
    reveal_strlit("successor");
    reveal_strlit("origin");
    reveal_strlit("has-acts");
    reveal_strlit("no-acts");
    assert("origin"@.len() != "successor"@.len());
    assert("no-acts"@.len() != "has-acts"@.len());
    if cs.len() > 0 {
        let rest = cs.drop_last();
        lemma_visible_rows_are_listed(rest, q, from, to, needle);
        let v = visible_books(cs, q, from, to, needle);
        let vr = visible_books(rest, q, from, to, needle);
        assert forall|k: int| 0 <= k < v.len() implies row_of_listed_candidate(cs, q, from, to, needle, #[trigger] v[k]) by {
            if k < vr.len() {
                assert(v[k] == vr[k]);
                assert(row_of_listed_candidate(rest, q, from, to, needle, vr[k]));
                let j = choose|j: int|
                    0 <= j < rest.len() && (#[trigger] rest[j]).item == vr[k] && rest[j].readable
                        && candidate_asked_for(rest[j], q, from, to) && (needle matches Some(n) ==> book_matches(vr[k], n));
                assert(cs[j] == rest[j]);
            } else {
                let n = cs.len() - 1;
                assert(cs[n] == cs.last());
                assert(book_passes(cs.last(), q, from, to, needle));
                assert(v[k] == cs[n].item);
                assert(cs[n].readable);
                assert(candidate_asked_for(cs[n], q, from, to));
            }
        }
    }
}

/// The rows past a cursor are rows of the given sequence.
proof fn lemma_past_cursor_rows(
    rows: Seq<BookPageItemView>,
    sort: Seq<char>,
    cursor: CursorPosition,
    descending: bool,
)
    ensures
        forall|k: int|
            0 <= k < books_past_cursor(rows, sort, cursor, descending).len() ==> rows.contains(
                #[trigger] books_past_cursor(rows, sort, cursor, descending)[k],
            ),
    decreases rows.len(),
{
    if rows.len() > 0 {
        let rest = rows.drop_last();
        lemma_past_cursor_rows(rest, sort, cursor, descending);
        let v = books_past_cursor(rows, sort, cursor, descending);
        let vr = books_past_cursor(rest, sort, cursor, descending);
        assert forall|k: int| 0 <= k < v.len() implies rows.contains(#[trigger] v[k]) by {
            if k < vr.len() {
                assert(v[k] == vr[k]);
                let w = choose|w: int| 0 <= w < rest.len() && rest[w] == vr[k];
                assert(rows[w] == rest[w]);
            } else {
                assert(v[k] == rows[rows.len() - 1]);
            }
        }
    }
}

/// The rows of a page are rows of the sorted sequence it was cut from.
proof fn lemma_page_rows_come_from_sorted(
    page: CollectionPage<BookPageItemView>,
    sorted: Seq<BookPageItemView>,
    sort: Seq<char>,
    descending: bool,
    cursor: Option<CursorPosition>,
    offset: usize,
    limit: usize,
    fingerprint: Seq<char>,
)
    requires
        books_page_is(page, sorted, sort, descending, cursor, offset, limit, fingerprint),
    ensures
        forall|k: int| 0 <= k < page.items@.len() ==> sorted.contains(#[trigger] page.items@[k]),
{
    let kept = match cursor {
        None => sorted,
        Some(c) => books_past_cursor(sorted, sort, c, descending),
    };
    if let Some(c) = cursor {
        lemma_past_cursor_rows(sorted, sort, c, descending);
    }
    assert forall|k: int| 0 <= k < kept.len() implies sorted.contains(#[trigger] kept[k]) by {
        if cursor is None {
            assert(sorted[k] == kept[k]);
        }
    }
    let window = if cursor is None && offset != 0 {
        after_offset(kept, offset as int)
    } else {
        kept
    };
    assert forall|k: int| 0 <= k < page.items@.len() implies sorted.contains(#[trigger] page.items@[k]) by {
        if cursor is None && offset != 0 && (offset as int) < kept.len() {
            assert(page.items@[k] == kept[k + offset]);
            assert(sorted.contains(kept[k + offset]));
        } else {
            assert(page.items@[k] == kept[k]);
            assert(sorted.contains(kept[k]));
        }
    }
}

/// **The books page lists only what it may and what was asked for**: every row of an answered
/// page is the row of a candidate the caller may read and that meets the query — its entity, kind
/// and state when named, some acts (`has-acts`) or none (`no-acts`), a predecessor (`successor`)
/// or none (`origin`), an opening day within the given bounds — and that matches the search.
pub proof fn lemma_books_page_rows_honour_lineage<P: Fn(&[u8]) -> Option<CursorEnvelope>>(
    query: BooksPageQuery,
    candidates: Seq<BookCandidate>,
    from: Option<i64>,
    to: Option<i64>,
    parse: P,
    r: Result<CollectionPage<BookPageItemView>, ApiError>,
)
    requires
        books_listing(query, candidates, from, to, parse, r),
    ensures
        r matches Ok(page) ==> forall|k: int|
            0 <= k < page.items@.len() ==> row_of_listed_candidate(candidates, query, from, to, books_needle(query), #[trigger] page.items@[k]),
{
    let sort = books_sort(query);
    let descending = books_descending(query);
    let limit = effective_limit(query.limit);
    let fp = fingerprint_of(books_fingerprint_fields(query, descending));
    let visible = visible_books(candidates, query, from, to, books_needle(query));
    let before = |a: BookPageItemView, b: BookPageItemView| book_row_before(a, b, sort, descending);
    let sorted = crate::sorting::sorted_stably(visible, before);
    lemma_visible_rows_are_listed(candidates, query, from, to, books_needle(query));
    crate::sorting::lemma_sorted_keeps_elements(visible, before);
    if let Ok(page) = r {
        let cursor: Option<CursorPosition> = match query.cursor {
            None => None,
            Some(c) => {
                let d = choose|d: Result<CursorPosition, ApiError>|
                    #[trigger] cursor_decoding(parse, c@, "books"@, fp, d) && match d {
                        Err(e) => r == Err::<CollectionPage<BookPageItemView>, ApiError>(e),
                        Ok(p) => r matches Ok(page) && books_page_is(page, sorted, sort, descending, Some(p), 0, limit, fp),
                    };
                match d {
                    Ok(p) => Some(p),
                    Err(_) => None,
                }
            },
        };
        let offset: usize = if query.cursor is Some { 0 } else { query.offset };
        assert(books_page_is(page, sorted, sort, descending, cursor, offset, limit, fp));
        lemma_page_rows_come_from_sorted(page, sorted, sort, descending, cursor, offset, limit, fp);
        assert forall|k: int| 0 <= k < page.items@.len() implies row_of_listed_candidate(
            candidates,
            query,
            from,
            to,
            books_needle(query),
            #[trigger] page.items@[k],
        ) by {
            assert(sorted.contains(page.items@[k]));
            let w = choose|w: int| 0 <= w < sorted.len() && sorted[w] == page.items@[k];
            assert(visible.contains(sorted[w]));
            let u = choose|u: int| 0 <= u < visible.len() && visible[u] == sorted[w];
            assert(row_of_listed_candidate(candidates, query, from, to, books_needle(query), visible[u]));
        }
    }
}

/// Whether row `y` sorts strictly after row `x`'s place on the page's key: a later sort key (then
/// a later id), or with `desc` an earlier one.
pub open spec fn row_out_of_order(x: BookPageItemView, y: BookPageItemView, sort: Seq<char>, descending: bool) -> bool {
    let (kx, ky) = (book_sort_key(x, sort), book_sort_key(y, sort));
    if descending {
        chars_before(kx, ky) || (kx == ky && chars_before(x.book.id@, y.book.id@))
    } else {
        chars_before(ky, kx) || (ky == kx && chars_before(y.book.id@, x.book.id@))
    }
}

/// The row order is a strict weak order.
proof fn lemma_book_row_order(
    a: BookPageItemView,
    b: BookPageItemView,
    c: BookPageItemView,
    sort: Seq<char>,
    descending: bool,
)
    ensures
        book_row_before(a, b, sort, descending) ==> !book_row_before(b, a, sort, descending),
        !book_row_before(a, b, sort, descending) && !book_row_before(b, c, sort, descending)
            ==> !book_row_before(a, c, sort, descending),
{
    let (ka, kb, kc) = (book_sort_key(a, sort), book_sort_key(b, sort), book_sort_key(c, sort));
    let (ia, ib, ic) = (a.book.id@, b.book.id@, c.book.id@);
    text_facts(ka, kb);
    text_facts(kb, kc);
    text_facts(ka, kc);
    text_facts(ia, ib);
    text_facts(ib, ic);
    text_facts(ia, ic);
    text_transitivity(ka, kb, kc);
    text_transitivity(kb, ka, kc);
    text_transitivity(ka, kc, kb);
    text_transitivity(kb, kc, ka);
    text_transitivity(kc, ka, kb);
    text_transitivity(kc, kb, ka);
    text_transitivity(ia, ib, ic);
    text_transitivity(ib, ia, ic);
    text_transitivity(ia, ic, ib);
    text_transitivity(ib, ic, ia);
    text_transitivity(ic, ia, ib);
    text_transitivity(ic, ib, ia);
}

/// Text order facts for one pair: asymmetric, and total up to equality.
proof fn text_facts(x: Seq<char>, y: Seq<char>)
    ensures
        chars_before(x, y) ==> !chars_before(y, x),
        !chars_before(x, y) && !chars_before(y, x) ==> x == y,
{
    if chars_before(x, y) {
        crate::collection_page::lemma_before_asymmetric(x, y);
    }
    if !chars_before(x, y) && !chars_before(y, x) {
        crate::collection_page::lemma_before_total(x, y);
    }
}

/// Text order transitivity for one triple.
proof fn text_transitivity(x: Seq<char>, y: Seq<char>, z: Seq<char>)
    ensures
        chars_before(x, y) && chars_before(y, z) ==> chars_before(x, z),
{
    if chars_before(x, y) && chars_before(y, z) {
        crate::collection_page::lemma_before_transitive(x, y, z);
    }
}

/// Keeping the rows past a cursor keeps their order.
proof fn lemma_past_cursor_keeps_order(
    rows: Seq<BookPageItemView>,
    sort: Seq<char>,
    cursor: CursorPosition,
    descending: bool,
)
    requires
        forall|i: int, j: int|
            0 <= i < j < rows.len() ==> !book_row_before(#[trigger] rows[j], #[trigger] rows[i], sort, descending),
    ensures
        forall|i: int, j: int|
            0 <= i < j < books_past_cursor(rows, sort, cursor, descending).len() ==> !book_row_before(
                #[trigger] books_past_cursor(rows, sort, cursor, descending)[j],
                #[trigger] books_past_cursor(rows, sort, cursor, descending)[i],
                sort,
                descending,
            ),
    decreases rows.len(),
{
    if rows.len() > 0 {
        let rest = rows.drop_last();
        lemma_past_cursor_keeps_order(rest, sort, cursor, descending);
        lemma_past_cursor_rows(rest, sort, cursor, descending);
        let v = books_past_cursor(rows, sort, cursor, descending);
        let vr = books_past_cursor(rest, sort, cursor, descending);
        assert forall|i: int, j: int| 0 <= i < j < v.len() implies !book_row_before(
            #[trigger] v[j],
            #[trigger] v[i],
            sort,
            descending,
        ) by {
            if j < vr.len() {
                assert(v[i] == vr[i] && v[j] == vr[j]);
            } else {
                assert(v[i] == vr[i]);
                assert(v[j] == rows[rows.len() - 1]);
                assert(rest.contains(vr[i]));
                let w = choose|w: int| 0 <= w < rest.len() && rest[w] == vr[i];
                assert(rows[w] == rest[w]);
            }
        }
    }
}

/// **The books page is in order**: on an answered page, no row sorts after a row below it — rows
/// ascend by the sort key (the id, the kind name or the state name), then by id, and descend with
/// `desc`.
pub proof fn lemma_books_page_rows_in_order<P: Fn(&[u8]) -> Option<CursorEnvelope>>(
    query: BooksPageQuery,
    candidates: Seq<BookCandidate>,
    from: Option<i64>,
    to: Option<i64>,
    parse: P,
    r: Result<CollectionPage<BookPageItemView>, ApiError>,
)
    requires
        books_listing(query, candidates, from, to, parse, r),
    ensures
        r matches Ok(page) ==> forall|i: int, j: int|
            0 <= i < j < page.items@.len() ==> !row_out_of_order(
                #[trigger] page.items@[i],
                #[trigger] page.items@[j],
                books_sort(query),
                books_descending(query),
            ),
{
    let sort = books_sort(query);
    let descending = books_descending(query);
    let limit = effective_limit(query.limit);
    let fp = fingerprint_of(books_fingerprint_fields(query, descending));
    let visible = visible_books(candidates, query, from, to, books_needle(query));
    let before = |a: BookPageItemView, b: BookPageItemView| book_row_before(a, b, sort, descending);
    let sorted = crate::sorting::sorted_stably(visible, before);
    assert forall|a: BookPageItemView, b: BookPageItemView| #[trigger] before(a, b) implies !before(b, a) by {
        lemma_book_row_order(a, b, a, sort, descending);
    }
    assert forall|a: BookPageItemView, b: BookPageItemView, c: BookPageItemView|
        #![trigger before(a, b), before(b, c)]
        !before(a, b) && !before(b, c) implies !before(a, c) by {
        lemma_book_row_order(a, b, c, sort, descending);
    }
    crate::sorting::lemma_sorted_has_no_inversion(visible, before);
    assert forall|i: int, j: int| 0 <= i < j < sorted.len() implies !book_row_before(
        #[trigger] sorted[j],
        #[trigger] sorted[i],
        sort,
        descending,
    ) by {
        assert(!before(sorted[j], sorted[i]));
    }
    if let Ok(page) = r {
        let cursor: Option<CursorPosition> = match query.cursor {
            None => None,
            Some(c) => {
                let d = choose|d: Result<CursorPosition, ApiError>|
                    #[trigger] cursor_decoding(parse, c@, "books"@, fp, d) && match d {
                        Err(e) => r == Err::<CollectionPage<BookPageItemView>, ApiError>(e),
                        Ok(p) => r matches Ok(page) && books_page_is(page, sorted, sort, descending, Some(p), 0, limit, fp),
                    };
                match d {
                    Ok(p) => Some(p),
                    Err(_) => None,
                }
            },
        };
        let offset: usize = if query.cursor is Some { 0 } else { query.offset };
        assert(books_page_is(page, sorted, sort, descending, cursor, offset, limit, fp));
        let kept = match cursor {
            None => sorted,
            Some(c) => books_past_cursor(sorted, sort, c, descending),
        };
        if let Some(c) = cursor {
            lemma_past_cursor_keeps_order(sorted, sort, c, descending);
        }
        assert forall|i: int, j: int| 0 <= i < j < page.items@.len() implies !row_out_of_order(
            #[trigger] page.items@[i],
            #[trigger] page.items@[j],
            sort,
            descending,
        ) by {
            if cursor is None && offset != 0 && (offset as int) < kept.len() {
                assert(page.items@[i] == kept[i + offset] && page.items@[j] == kept[j + offset]);
                assert(!book_row_before(kept[j + offset], kept[i + offset], sort, descending));
            } else {
                assert(page.items@[i] == kept[i] && page.items@[j] == kept[j]);
                assert(!book_row_before(kept[j], kept[i], sort, descending));
            }
        }
    }
}

fn books_listing_exec<P: Fn(&[u8]) -> Option<CursorEnvelope>>(
    query: &BooksPageQuery,
    candidates: Vec<BookCandidate>,
    from: Option<i64>,
    to: Option<i64>,
    parse: P,
    descending: bool,
) -> (r: Result<CollectionPage<BookPageItemView>, ApiError>)
    requires
        forall|input: &[u8]| #[trigger] parse.requires((input,)),
        books_query_refusal(*query) is None,
        descending == books_descending(*query),
    ensures
        books_listing(*query, candidates@, from, to, parse, r),
{
    let page_query = query.page();
    let sort: &str = match &query.sort {
        Some(s) => s.as_str(),
        None => "id",
    };
    let search = page_query.normalized_search();
    let limit = page_query.limit();
    let fingerprint = books_fingerprint(query, &search, sort, descending);
    let cursor = match page_query.cursor("books", fingerprint.as_str(), parse) {
        Ok(c) => c,
        Err(e) => {
            return Err(e);
        },
    };
    let visible = filter_books(candidates, query, from, to, &search);
    let page = books_page_of(visible, sort, descending, cursor, page_query.offset, limit, fingerprint.as_str());
    Ok(page)
}

/// **The bounded, searchable books page.** Refuses, in this order, an unknown order, an unknown
/// sort (`id`, `kind` or `state`), an unknown activity or lineage filter, an opening-date bound
/// that did not parse, and a cursor that is sent with an offset or does not resume this query.
/// Otherwise keeps the candidates the caller may read that pass every filter and match the folded
/// search, sorts them stably by sort key then id (reversed for `desc`), drops the rows at or before
/// the cursor, and cuts out the page. The page carries no total count.
pub fn list_books_page<P: Fn(&[u8]) -> Option<CursorEnvelope>>(
    query: &BooksPageQuery,
    candidates: Vec<BookCandidate>,
    opened_from: Result<Option<i64>, ApiError>,
    opened_to: Result<Option<i64>, ApiError>,
    parse: P,
) -> (r: Result<CollectionPage<BookPageItemView>, ApiError>)
    requires
        forall|input: &[u8]| #[trigger] parse.requires((input,)),
    ensures
        match books_query_refusal(*query) {
            Some(m) => refusal(r, ApiErrorKind::Unprocessable, m),
            None => match (opened_from, opened_to) {
                (Err(e), _) => r == Err::<CollectionPage<BookPageItemView>, ApiError>(e),
                (Ok(_), Err(e)) => r == Err::<CollectionPage<BookPageItemView>, ApiError>(e),
                (Ok(from), Ok(to)) => books_listing(*query, candidates@, from, to, parse, r),
            },
        },
{
    let descending = match check_books_query(query) {
        Ok(d) => d,
        Err(e) => {
            return Err(e);
        },
    };
    let from = match opened_from {
        Ok(v) => v,
        Err(e) => {
            return Err(e);
        },
    };
    let to = match opened_to {
        Ok(v) => v,
        Err(e) => {
            return Err(e);
        },
    };
    books_listing_exec(query, candidates, from, to, parse, descending)
}

} // verus!
