//! **Book bundles**: exporting, importing (with a side-effect-free preflight) and starting a book
//! over. What is decided here: the collision policy a request names, the size gate of an uploaded
//! bundle, the refusals of a deployment without durable storage, the preflight verdict shown to an
//! operator (ready or not, errors, findings, the next step), and the successor of a restarted book.
use vstd::prelude::*;

use crate::books::BookSummary;
use crate::cluster_shared_state::{parse_uuid, uuid_parsed};
use crate::collection_page::{debug_quoted, debug_str};
use crate::error::{refusal, ApiError, ApiErrorKind};
use crate::text::{dec_nat, owned, push_str, string_from_chars, trim, trim_chars, u64_to_string};

verus! {

/// The largest accepted bundle upload, in bytes (64 MiB).
pub const BOOK_IMPORT_BUNDLE_MAX_BYTES: usize = 67108864;

/// The actor recorded when a request names none.
pub fn default_actor() -> (r: String)
    ensures
        r@ == "api"@,
{
    owned("api")
}

/// What an import does when the bundle's book id already exists.
#[derive(Debug, Clone, Copy, PartialEq, Eq, Structural)]
pub enum CollisionPolicy {
    /// Refuse the import.
    Refuse,
    /// Keep an isolated read-only copy under the original ids.
    QuarantineCopy,
}

/// `POST /v1/books/import`: the collision policy.
#[derive(Debug, Clone, Default)]
pub struct ImportQuery {
    pub policy: Option<String>,
}

/// The message of an unknown collision policy.
pub open spec fn unknown_policy_message(p: Seq<char>) -> Seq<char> {
    "política de colisão desconhecida "@ + debug_quoted(p) + " (use refuse | quarantine_copy)"@
}

/// The policy a (trimmed) request value names, if it names one.
pub open spec fn named_policy(p: Seq<char>) -> Option<CollisionPolicy> {
    if p == ""@ || p == "refuse"@ || p == "Refuse"@ {
        Some(CollisionPolicy::Refuse)
    } else if p == "quarantine_copy"@ || p == "quarantine"@ || p == "QuarantineCopy"@ {
        Some(CollisionPolicy::QuarantineCopy)
    } else {
        None
    }
}

/// **The collision policy of a request**: none, blank or `refuse` refuses; `quarantine_copy` (or
/// `quarantine`) keeps a copy; anything else is refused.
pub fn parse_policy(raw: Option<&str>) -> (r: Result<CollisionPolicy, ApiError>)
    ensures
        match raw {
            None => r == Ok::<CollisionPolicy, ApiError>(CollisionPolicy::Refuse),
            Some(s) => match named_policy(trim(s@)) {
                Some(p) => r == Ok::<CollisionPolicy, ApiError>(p),
                None => refusal(r, ApiErrorKind::Unprocessable, unknown_policy_message(trim(s@))),
            },
        },
{
    let s = match raw {
        None => {
            return Ok(CollisionPolicy::Refuse);
        },
        Some(s) => s,
    };
    let t = string_from_chars(&trim_chars(s));
    let ts = t.as_str();
    proof {
        reveal_strlit("");
    }
    if crate::text::str_eq(ts, "") || crate::text::str_eq(ts, "refuse") || crate::text::str_eq(ts, "Refuse") {
        return Ok(CollisionPolicy::Refuse);
    }
    if crate::text::str_eq(ts, "quarantine_copy") || crate::text::str_eq(ts, "quarantine")
        || crate::text::str_eq(ts, "QuarantineCopy") {
        return Ok(CollisionPolicy::QuarantineCopy);
    }
    let mut m = owned("política de colisão desconhecida ");
    push_str(&mut m, debug_str(ts).as_str());
    push_str(&mut m, " (use refuse | quarantine_copy)");
    Err(ApiError::new(ApiErrorKind::Unprocessable, m))
}

/// The wire code of a policy.
pub open spec fn policy_code(p: CollisionPolicy) -> Seq<char> {
    match p {
        CollisionPolicy::Refuse => "refuse"@,
        CollisionPolicy::QuarantineCopy => "quarantine_copy"@,
    }
}

/// The wire code of a policy.
pub fn import_policy_code(policy: CollisionPolicy) -> (r: &'static str)
    ensures
        r@ == policy_code(policy),
{
    match policy {
        CollisionPolicy::Refuse => "refuse",
        CollisionPolicy::QuarantineCopy => "quarantine_copy",
    }
}

/// The message of an over-sized bundle.
pub open spec fn oversize_message(len: nat) -> Seq<char> {
    "pacote do livro tem "@ + dec_nat(len) + " bytes; o limite é 67108864 bytes"@
}

/// **The size gate of an uploaded bundle**: an empty body and a body over 64 MiB are refused.
pub fn check_bundle_size(len: usize) -> (r: Result<(), ApiError>)
    ensures
        len == 0 ==> refusal(r, ApiErrorKind::Unprocessable, "corpo do pacote vazio"@),
        len > BOOK_IMPORT_BUNDLE_MAX_BYTES ==> refusal(r, ApiErrorKind::Unprocessable, oversize_message(len as nat)),
        0 < len <= BOOK_IMPORT_BUNDLE_MAX_BYTES ==> r is Ok,
{
    if len == 0 {
        return Err(ApiError::new(ApiErrorKind::Unprocessable, owned("corpo do pacote vazio")));
    }
    if len > BOOK_IMPORT_BUNDLE_MAX_BYTES {
        let mut m = owned("pacote do livro tem ");
        push_str(&mut m, u64_to_string(len as u64).as_str());
        push_str(&mut m, " bytes; o limite é 67108864 bytes");
        return Err(ApiError::new(ApiErrorKind::Unprocessable, m));
    }
    Ok(())
}

/// The bundle operations that need durable storage.
#[derive(Debug, Clone, Copy, PartialEq, Eq, Structural)]
pub enum BundleOperation {
    Export,
    Preflight,
    Import,
    StartOver,
}

/// The refusal of a bundle operation on a deployment without durable storage.
pub open spec fn storage_message(op: BundleOperation) -> Seq<char> {
    match op {
        BundleOperation::Export => "exportação requer persistência em disco"@,
        BundleOperation::Preflight => "pré-validação de importação requer persistência em disco"@,
        BundleOperation::Import => "importação requer persistência em disco"@,
        BundleOperation::StartOver => "recomeçar um livro requer persistência em disco"@,
    }
}

/// The refusal of a bundle operation on a deployment without durable storage.
pub fn storage_required(op: BundleOperation) -> (r: ApiError)
    ensures
        r.kind == ApiErrorKind::Unprocessable,
        r.code is None,
        r.message@ == storage_message(op),
{
    let m = match op {
        BundleOperation::Export => owned("exportação requer persistência em disco"),
        BundleOperation::Preflight => owned("pré-validação de importação requer persistência em disco"),
        BundleOperation::Import => owned("importação requer persistência em disco"),
        BundleOperation::StartOver => owned("recomeçar um livro requer persistência em disco"),
    };
    ApiError::new(ApiErrorKind::Unprocessable, m)
}

/// Where a quarantined bundle's hash chain breaks.
#[derive(Debug, Clone)]
pub struct ChainBreak {
    pub message: String,
}

/// What import verification concluded about a bundle.
#[derive(Debug, Clone)]
pub enum ImportVerdict {
    /// The bundle's chain verified.
    Verified,
    /// The bundle would be quarantined at this break.
    Quarantined { break_: ChainBreak },
}

/// The verdict as served.
#[derive(Debug, Clone)]
pub struct ImportVerdictView {
    pub status: String,
    pub break_: Option<ChainBreak>,
}

/// Whether `v` is the served form of `verdict`.
pub open spec fn verdict_view_is(v: ImportVerdictView, verdict: ImportVerdict) -> bool {
    match verdict {
        ImportVerdict::Verified => v.status@ == "Verified"@ && v.break_ is None,
        ImportVerdict::Quarantined { break_ } => v.status@ == "Quarantined"@ && (v.break_ matches Some(b)
            && b.message@ == break_.message@),
    }
}

/// The view of a verdict.
pub fn import_verdict_view(verdict: &ImportVerdict) -> (r: ImportVerdictView)
    ensures
        verdict_view_is(r, *verdict),
{
    match verdict {
        ImportVerdict::Verified => ImportVerdictView { status: owned("Verified"), break_: None },
        ImportVerdict::Quarantined { break_ } => ImportVerdictView {
            status: owned("Quarantined"),
            break_: Some(ChainBreak { message: break_.message.clone() }),
        },
    }
}

/// What a completed import answers.
#[derive(Debug, Clone)]
pub struct ImportOutcomeView {
    pub import_id: String,
    pub entity_id: String,
    pub book_id: String,
    pub verdict: ImportVerdictView,
    pub source_instance_id: String,
    pub bundle_digest: String,
    pub collided: bool,
}

/// What the store's side-effect-free preflight found in a bundle.
#[derive(Debug, Clone)]
pub struct ImportPreflight {
    pub verdict: ImportVerdict,
    pub collided: bool,
    pub policy: CollisionPolicy,
    pub entity_id: String,
    pub book_id: String,
    pub source_instance_id: String,
    pub bundle_digest: String,
    pub manifest_file_count: usize,
    pub manifest_total_bytes: u64,
    pub zip_member_count: usize,
    pub event_count: Option<usize>,
    pub book_chain_length: u64,
    pub signature_present: bool,
}

/// The preflight as served to the operator.
#[derive(Debug, Clone)]
pub struct ImportPreflightView {
    pub ok: bool,
    pub ready: bool,
    pub would_import: bool,
    pub would_record_ledger_event: bool,
    pub would_store_import_record: bool,
    pub policy: String,
    pub entity_id: Option<String>,
    pub book_id: Option<String>,
    pub verdict: Option<ImportVerdictView>,
    pub source_instance_id: Option<String>,
    pub bundle_digest: Option<String>,
    pub collided: bool,
    pub manifest_file_count: Option<usize>,
    pub manifest_total_bytes: Option<u64>,
    pub zip_member_count: Option<usize>,
    pub event_count: Option<usize>,
    pub book_chain_verified: Option<bool>,
    pub book_chain_length: Option<u64>,
    pub signature_present: Option<bool>,
    pub errors: Vec<String>,
    pub findings: Vec<String>,
    pub next_step: String,
}

/// The finding of a collision under `quarantine_copy`.
pub open spec fn quarantine_copy_finding() -> Seq<char> {
    "book id already exists; policy=quarantine_copy would keep an isolated read-only copy under the original ids"@
}

/// The finding that lists what the preview checked.
pub open spec fn checked_finding() -> Seq<char> {
    "Preview checked the manifest self-digest, manifest-listed member sha256 values, events.jsonl book-chain verification, optional signature field presence, and current id collision state."@
}

/// The finding about an exporter signature field that is present.
pub open spec fn signature_finding() -> Seq<char> {
    "Bundle carries an exporter signature field, but current v1 import confirmation does not perform additional exporter-signature validation beyond existing bundle digest/member/chain checks."@
}

/// The finding about an absent exporter signature.
pub open spec fn no_signature_finding() -> Seq<char> {
    "No exporter signature is present; current v1 confirmation relies on existing bundle digest/member/chain checks."@
}

/// The finding that the preflight changed nothing.
pub open spec fn no_side_effects_finding() -> Seq<char> {
    "Preflight did not append ledger.imported, store an imported_books record, merge live records, or change trust state."@
}

/// The finding that the preview certifies nothing.
pub open spec fn not_certification_finding() -> Seq<char> {
    "Operator-safety preview only: not legal archive certification, not production signed-import validation beyond existing checks, and not DGLAB/legal acceptance."@
}

/// The error of a bundle that would be quarantined.
pub open spec fn quarantine_error(message: Seq<char>) -> Seq<char> {
    "bundle would be quarantined by import verification: "@ + message
}

/// The error of a collision under `refuse`.
pub open spec fn refuse_collision_error(book_id: Seq<char>) -> Seq<char> {
    "book id "@ + book_id + " already exists and policy=refuse would block the import"@
}

/// Whether the preflight allows the import: the chain verified, and no collision blocks it.
pub open spec fn preflight_ready(p: ImportPreflight) -> bool {
    p.verdict is Verified && !(p.collided && p.policy == CollisionPolicy::Refuse)
}

/// The errors of a preflight, in order.
pub open spec fn preflight_errors(p: ImportPreflight) -> Seq<Seq<char>> {
    let q = match p.verdict {
        ImportVerdict::Quarantined { break_ } => seq![quarantine_error(break_.message@)],
        ImportVerdict::Verified => Seq::empty(),
    };
    if p.collided && p.policy == CollisionPolicy::Refuse {
        q.push(refuse_collision_error(p.book_id@))
    } else {
        q
    }
}

/// The findings of a preflight, in order.
pub open spec fn preflight_findings(p: ImportPreflight) -> Seq<Seq<char>> {
    let c = if p.collided && p.policy != CollisionPolicy::Refuse {
        seq![quarantine_copy_finding()]
    } else {
        Seq::empty()
    };
    c + seq![
        checked_finding(),
        if p.signature_present {
            signature_finding()
        } else {
            no_signature_finding()
        },
        no_side_effects_finding(),
        not_certification_finding(),
    ]
}

/// The next step offered after a preflight.
pub open spec fn preflight_next_step(p: ImportPreflight) -> Seq<char> {
    if preflight_ready(p) {
        "review this preview and explicitly confirm the mutating import; confirmation can still fail if a concurrent change creates a collision or persistence fails"@
    } else if p.collided && p.policy == CollisionPolicy::Refuse {
        "choose a different bundle or switch to quarantine_copy if an isolated read-only copy is intended, then run preflight again"@
    } else {
        "choose another bundle and run preflight again; this preview is not ready for confirmation"@
    }
}

/// The texts of a list of strings.
pub open spec fn texts_of(v: Seq<String>) -> Seq<Seq<char>> {
    Seq::new(v.len(), |i: int| v[i]@)
}

/// **The preflight verdict shown to an operator.** Ready exactly when the chain verified and no
/// collision blocks the import under `refuse`; a quarantine and a refused collision are errors; a
/// collision under `quarantine_copy` is a finding. The preview never claims it would record a
/// ledger event or an import record, and lists what it checked and what it does not certify.
pub fn import_preflight_view(preflight: ImportPreflight) -> (r: ImportPreflightView)
    ensures
        r.ready == preflight_ready(preflight),
        r.ok == r.ready,
        r.would_import == r.ready,
        !r.would_record_ledger_event,
        !r.would_store_import_record,
        r.policy@ == policy_code(preflight.policy),
        r.entity_id == Some(preflight.entity_id),
        r.book_id == Some(preflight.book_id),
        r.verdict matches Some(v) && verdict_view_is(v, preflight.verdict),
        r.source_instance_id == Some(preflight.source_instance_id),
        r.bundle_digest == Some(preflight.bundle_digest),
        r.collided == preflight.collided,
        r.manifest_file_count == Some(preflight.manifest_file_count),
        r.manifest_total_bytes == Some(preflight.manifest_total_bytes),
        r.zip_member_count == Some(preflight.zip_member_count),
        r.event_count == preflight.event_count,
        r.book_chain_verified == Some(preflight.verdict is Verified),
        r.book_chain_length == Some(preflight.book_chain_length),
        r.signature_present == Some(preflight.signature_present),
        texts_of(r.errors@) == preflight_errors(preflight),
        texts_of(r.findings@) == preflight_findings(preflight),
        r.next_step@ == preflight_next_step(preflight),
{
    let verdict = import_verdict_view(&preflight.verdict);
    let verified = match &preflight.verdict {
        ImportVerdict::Verified => true,
        ImportVerdict::Quarantined { .. } => false,
    };
    let mut errors: Vec<String> = Vec::new();
    let mut findings: Vec<String> = Vec::new();
    let mut ready = verified;
    match &preflight.verdict {
        ImportVerdict::Quarantined { break_ } => {
            ready = false;
            let mut m = owned("bundle would be quarantined by import verification: ");
            push_str(&mut m, break_.message.as_str());
            errors.push(m);
        },
        ImportVerdict::Verified => {},
    }
    let refuse = match preflight.policy {
        CollisionPolicy::Refuse => true,
        CollisionPolicy::QuarantineCopy => false,
    };
    if preflight.collided {
        if refuse {
            ready = false;
            let mut m = owned("book id ");
            push_str(&mut m, preflight.book_id.as_str());
            push_str(&mut m, " already exists and policy=refuse would block the import");
            errors.push(m);
        } else {
            findings.push(
                owned(
                    "book id already exists; policy=quarantine_copy would keep an isolated read-only copy under the original ids",
                ),
            );
        }
    }
    findings.push(
        owned(
            "Preview checked the manifest self-digest, manifest-listed member sha256 values, events.jsonl book-chain verification, optional signature field presence, and current id collision state.",
        ),
    );
    if preflight.signature_present {
        findings.push(
            owned(
                "Bundle carries an exporter signature field, but current v1 import confirmation does not perform additional exporter-signature validation beyond existing bundle digest/member/chain checks.",
            ),
        );
    } else {
        findings.push(
            owned(
                "No exporter signature is present; current v1 confirmation relies on existing bundle digest/member/chain checks.",
            ),
        );
    }
    findings.push(
        owned(
            "Preflight did not append ledger.imported, store an imported_books record, merge live records, or change trust state.",
        ),
    );
    findings.push(
        owned(
            "Operator-safety preview only: not legal archive certification, not production signed-import validation beyond existing checks, and not DGLAB/legal acceptance.",
        ),
    );
    let next_step = if ready {
        owned(
            "review this preview and explicitly confirm the mutating import; confirmation can still fail if a concurrent change creates a collision or persistence fails",
        )
    } else if preflight.collided && refuse {
        owned(
            "choose a different bundle or switch to quarantine_copy if an isolated read-only copy is intended, then run preflight again",
        )
    } else {
        owned("choose another bundle and run preflight again; this preview is not ready for confirmation")
    };
    assert(texts_of(errors@) =~= preflight_errors(preflight));
    assert(texts_of(findings@) =~= preflight_findings(preflight));
    ImportPreflightView {
        ok: ready,
        ready,
        would_import: ready,
        would_record_ledger_event: false,
        would_store_import_record: false,
        policy: owned(import_policy_code(preflight.policy)),
        entity_id: Some(preflight.entity_id),
        book_id: Some(preflight.book_id),
        verdict: Some(verdict),
        source_instance_id: Some(preflight.source_instance_id),
        bundle_digest: Some(preflight.bundle_digest),
        collided: preflight.collided,
        manifest_file_count: Some(preflight.manifest_file_count),
        manifest_total_bytes: Some(preflight.manifest_total_bytes),
        zip_member_count: Some(preflight.zip_member_count),
        event_count: preflight.event_count,
        book_chain_verified: Some(verified),
        book_chain_length: Some(preflight.book_chain_length),
        signature_present: Some(preflight.signature_present),
        errors,
        findings,
        next_step,
    }
}

/// The preview of a bundle the store could not read: not ready, with the reason, the two
/// no-side-effect findings, and the advice to choose a readable bundle.
pub fn invalid_import_preflight_view(policy: CollisionPolicy, message: String) -> (r: ImportPreflightView)
    ensures
        !r.ok && !r.ready && !r.would_import && !r.would_record_ledger_event && !r.would_store_import_record,
        r.policy@ == policy_code(policy),
        r.entity_id is None && r.book_id is None && r.verdict is None,
        r.source_instance_id is None && r.bundle_digest is None && !r.collided,
        r.manifest_file_count is None && r.manifest_total_bytes is None && r.zip_member_count is None,
        r.event_count is None && r.book_chain_verified is None && r.book_chain_length is None,
        r.signature_present is None,
        texts_of(r.errors@) == seq!["invalid bundle: "@ + message@],
        texts_of(r.findings@) == seq![no_side_effects_finding(), not_certification_finding()],
        r.next_step@ == "choose a readable chancela-book-bundle/v1 zip and run preflight again"@,
{
    let mut e = owned("invalid bundle: ");
    push_str(&mut e, message.as_str());
    let mut errors: Vec<String> = Vec::new();
    errors.push(e);
    let mut findings: Vec<String> = Vec::new();
    findings.push(
        owned(
            "Preflight did not append ledger.imported, store an imported_books record, merge live records, or change trust state.",
        ),
    );
    findings.push(
        owned(
            "Operator-safety preview only: not legal archive certification, not production signed-import validation beyond existing checks, and not DGLAB/legal acceptance.",
        ),
    );
    assert(texts_of(errors@) =~= seq!["invalid bundle: "@ + message@]);
    assert(texts_of(findings@) =~= seq![no_side_effects_finding(), not_certification_finding()]);
    ImportPreflightView {
        ok: false,
        ready: false,
        would_import: false,
        would_record_ledger_event: false,
        would_store_import_record: false,
        policy: owned(import_policy_code(policy)),
        entity_id: None,
        book_id: None,
        verdict: None,
        source_instance_id: None,
        bundle_digest: None,
        collided: false,
        manifest_file_count: None,
        manifest_total_bytes: None,
        zip_member_count: None,
        event_count: None,
        book_chain_verified: None,
        book_chain_length: None,
        signature_present: None,
        errors,
        findings,
        next_step: owned("choose a readable chancela-book-bundle/v1 zip and run preflight again"),
    }
}

/// What restarting a book did.
#[derive(Debug, Clone)]
pub struct ReinitView {
    pub scope: String,
    pub archive_path: String,
    pub archived_bundle_digest: String,
    pub old_book_id: Option<String>,
    pub new_book_id: Option<String>,
}

/// What restarting a book answers: the restart and the successor book.
#[derive(Debug, Clone)]
pub struct StartOverBookResponse {
    pub reinit: ReinitView,
    pub new_book: BookSummary,
}

/// The successor of a restarted book: its id as returned by the store must be a UUID.
pub fn successor_book_id(new_book_id: &Option<String>) -> (r: Result<u128, ApiError>)
    ensures
        match new_book_id {
            Some(s) => match uuid_parsed(s@) {
                Some(u) => r == Ok::<u128, ApiError>(u),
                None => refusal(r, ApiErrorKind::Internal, "start-over did not return a successor id"@),
            },
            None => refusal(r, ApiErrorKind::Internal, "start-over did not return a successor id"@),
        },
{
    let parsed = match new_book_id {
        Some(s) => parse_uuid(s.as_str()),
        None => None,
    };
    match parsed {
        Some(u) => Ok(u),
        None => Err(ApiError::new(ApiErrorKind::Internal, owned("start-over did not return a successor id"))),
    }
}

} // verus!
