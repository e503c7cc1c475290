//! **The production CMD test signature**: a qualified signature, made through the real Chave Móvel
//! Digital service, over a document that says of itself that it is only a connection test.
//!
//! The flow alternates decisions with outside work (authorization, the CMD provider, PDF signing),
//! so what stands here are the decisions and the honest answers: the refusals that stop a test
//! before anything is sent (an injected transport, no storage to retain the result, a credential
//! resolved for pre-production, no or an unknown credential), which credential a test uses and how
//! it is described, the gates of the confirmation step (only the initiator, only before the
//! session expires), the self-validation summary, and the responses — which always say that the
//! document has no legal effect and counts toward nothing.
use vstd::prelude::*;

use crate::error::{ApiError, ApiErrorKind};
use crate::text::owned;

verus! {

/// The code of a phone number the CMD service cannot take.
pub const PHONE_INVALID_CODE: &'static str = "cmd_test_phone_invalid";
/// The code of a confirmation against a credential that is not for production.
pub const REQUIRES_PRODUCTION_CODE: &'static str = "cmd_test_requires_production";
/// The code of a test whose credential resolved to pre-production.
pub const ENVIRONMENT_PREPROD_CODE: &'static str = "cmd_test_environment_preprod";
/// The code of a test on an instance with an injected CMD transport.
pub const SIMULATED_TRANSPORT_CODE: &'static str = "cmd_test_simulated_transport";
/// The code of a test on an instance that cannot retain the signed document.
pub const NO_RETENTION_STORAGE_CODE: &'static str = "cmd_test_no_retention_storage";
/// The code of a test with no CMD credential configured.
pub const CREDENTIALS_MISSING_CODE: &'static str = "cmd_test_credentials_missing";
/// The code of a test pinned to a credential that is missing or disabled.
pub const ENTRY_UNAVAILABLE_CODE: &'static str = "cmd_test_entry_unavailable";
/// The code of a confirmation by someone other than the initiator.
pub const INITIATOR_ONLY_CODE: &'static str = "cmd_test_initiator_only";
/// The code of a confirmation after the session expired.
pub const SESSION_EXPIRED_CODE: &'static str = "cmd_test_session_expired";

/// The audit scope of test signatures.
pub const AUDIT_SCOPE: &'static str = "cmd_test_signature";
/// How long a test session waits for its one-time code, in seconds.
pub const TEST_SESSION_TTL_SECS: i64 = 300;
/// The directory (under the data directory) the signed test documents are kept in.
pub const RETENTION_DIR: &'static str = "cmd-test-signatures";
/// The legal effect of a test signature.
pub const LEGAL_EFFECT_NONE: &'static str = "none";

/// Whether `r` is the conflict refusal with the given message and code.
pub open spec fn coded(r: ApiError, kind: ApiErrorKind, message: Seq<char>, code: &'static str) -> bool {
    r.kind == kind && r.message@ == message && r.code == Some(code)
}

/// The message of a phone number the CMD service cannot take.
pub open spec fn phone_invalid_message() -> Seq<char> {
    "número de telemóvel inválido para a Chave Móvel Digital (formato +351 XXXXXXXXX)"@
}

/// The refusal of a phone number the CMD service cannot take.
pub fn phone_invalid() -> (r: ApiError)
    ensures
        coded(r, ApiErrorKind::Unprocessable, phone_invalid_message(), PHONE_INVALID_CODE),
{
    ApiError::new(
        ApiErrorKind::Unprocessable,
        owned("número de telemóvel inválido para a Chave Móvel Digital (formato +351 XXXXXXXXX)"),
    ).with_code(PHONE_INVALID_CODE)
}

/// The message of a test on an instance with an injected transport.
pub open spec fn simulated_transport_message() -> Seq<char> {
    "esta instância tem um transporte de Chave Móvel Digital injetado; uma assinatura de teste de produção não corre contra um transporte simulado"@
}

/// **The mock refusal**: a production test never runs against an injected (simulated) transport,
/// since a test that "succeeded" against a canned fixture would report that production works while
/// nothing was contacted.
pub fn refuse_injected_transport(transport_injected: bool) -> (r: Result<(), ApiError>)
    ensures
        !transport_injected <==> r is Ok,
        r matches Err(e) ==> coded(e, ApiErrorKind::Conflict, simulated_transport_message(), SIMULATED_TRANSPORT_CODE),
{
    if transport_injected {
        return Err(
            ApiError::new(
                ApiErrorKind::Conflict,
                owned(
                    "esta instância tem um transporte de Chave Móvel Digital injetado; uma assinatura de teste de produção não corre contra um transporte simulado",
                ),
            ).with_code(SIMULATED_TRANSPORT_CODE),
        );
    }
    Ok(())
}

/// The message of a test on an instance without durable storage.
pub open spec fn no_retention_message() -> Seq<char> {
    "esta instância não guarda ficheiros em disco, pelo que uma assinatura qualificada real não poderia ser conservada; a assinatura de teste não foi iniciada"@
}

/// A real qualified signature must be retained, so a test needs a data directory.
pub fn require_retention_storage(has_data_dir: bool) -> (r: Result<(), ApiError>)
    ensures
        has_data_dir <==> r is Ok,
        r matches Err(e) ==> coded(e, ApiErrorKind::Conflict, no_retention_message(), NO_RETENTION_STORAGE_CODE),
{
    if !has_data_dir {
        return Err(
            ApiError::new(
                ApiErrorKind::Conflict,
                owned(
                    "esta instância não guarda ficheiros em disco, pelo que uma assinatura qualificada real não poderia ser conservada; a assinatura de teste não foi iniciada",
                ),
            ).with_code(NO_RETENTION_STORAGE_CODE),
        );
    }
    Ok(())
}

/// The message of a test whose credential resolved to pre-production.
pub open spec fn preprod_message() -> Seq<char> {
    "a credencial que este teste usaria está resolvida para pré-produção e a assinatura de              teste só corre em produção. Escolha «Produção» no ambiente desta credencial ou, se a              credencial não indicar ambiente, mude o ambiente predefinido nas definições de              assinatura."@
}

/// The message of a confirmation against a credential that is not for production.
pub open spec fn requires_production_message() -> Seq<char> {
    "a assinatura de teste só corre contra o ambiente de produção da Chave Móvel Digital"@
}

/// A test signature runs only against production: at initiation the credential must resolve to
/// production, and so must it at confirmation (each step has its own refusal).
pub fn require_production(is_production: bool, confirming: bool) -> (r: Result<(), ApiError>)
    ensures
        is_production <==> r is Ok,
        r matches Err(e) ==> if confirming {
            coded(e, ApiErrorKind::Conflict, requires_production_message(), REQUIRES_PRODUCTION_CODE)
        } else {
            coded(e, ApiErrorKind::Conflict, preprod_message(), ENVIRONMENT_PREPROD_CODE)
        },
{
    if is_production {
        return Ok(());
    }
    if confirming {
        Err(
            ApiError::new(
                ApiErrorKind::Conflict,
                owned("a assinatura de teste só corre contra o ambiente de produção da Chave Móvel Digital"),
            ).with_code(REQUIRES_PRODUCTION_CODE),
        )
    } else {
        Err(
            ApiError::new(
                ApiErrorKind::Conflict,
                owned(
                    "a credencial que este teste usaria está resolvida para pré-produção e a assinatura de              teste só corre em produção. Escolha «Produção» no ambiente desta credencial ou, se a              credencial não indicar ambiente, mude o ambiente predefinido nas definições de              assinatura.",
                ),
            ).with_code(ENVIRONMENT_PREPROD_CODE),
        )
    }
}

/// Where a CMD credential came from.
#[derive(Debug, Clone, PartialEq, Eq)]
pub enum ResolvedSource {
    /// A credential stored in the administration panel.
    Stored { entry_id: String, label: String },
    /// The server's environment variables.
    Env,
}

/// How a credential source is described: its wire name, and for a stored entry its id and label.
pub fn describe_source(source: &ResolvedSource) -> (r: (&'static str, Option<String>, Option<String>))
    ensures
        match source {
            ResolvedSource::Stored { entry_id, label } => r.0@ == "stored_entry"@ && r.1 == Some(*entry_id)
                && r.2 == Some(*label),
            ResolvedSource::Env => r.0@ == "environment"@ && r.1 is None && r.2 is None,
        },
{
    match source {
        ResolvedSource::Stored { entry_id, label } => ("stored_entry", Some(entry_id.clone()), Some(label.clone())),
        ResolvedSource::Env => ("environment", None, None),
    }
}

/// Whether `entry_id` and `entry_label` name the stored entry of `source` (none for the
/// environment).
pub open spec fn source_named(source: ResolvedSource, entry_id: Option<String>, entry_label: Option<String>) -> bool {
    match source {
        ResolvedSource::Stored { entry_id: id, label } => entry_id == Some(id) && entry_label == Some(label),
        ResolvedSource::Env => entry_id is None && entry_label is None,
    }
}

/// The message of a test with no CMD credential.
pub open spec fn credentials_missing_message() -> Seq<char> {
    "a Chave Móvel Digital não está configurada: preencha application_id, http_basic_username, http_basic_password e ama_cert_pem na credencial CMD do painel de administração"@
}

/// The message of a test pinned to a missing or disabled credential.
pub open spec fn entry_unavailable_message() -> Seq<char> {
    "a credencial indicada não existe ou está desativada; a assinatura de teste não recorre a outra credencial"@
}

/// Whether candidate `c` is the stored entry `wanted`.
pub open spec fn is_entry(c: ResolvedSource, wanted: Seq<char>) -> bool {
    match c {
        ResolvedSource::Stored { entry_id, .. } => entry_id@ == wanted,
        ResolvedSource::Env => false,
    }
}

/// **Which credential a test uses**: none configured is refused; a pinned entry must be one of
/// the stored candidates (the first with that id) — a test never falls back to another credential;
/// without a pin, the first candidate.
pub fn pick_candidate(candidates: &Vec<ResolvedSource>, entry_id: Option<&str>) -> (r: Result<usize, ApiError>)
    ensures
        candidates@.len() == 0 ==> (r matches Err(e) && coded(e, ApiErrorKind::Conflict, credentials_missing_message(), CREDENTIALS_MISSING_CODE)),
        candidates@.len() > 0 ==> match entry_id {
            None => r == Ok::<usize, ApiError>(0),
            Some(w) => match r {
                Ok(i) => i < candidates@.len() && is_entry(candidates@[i as int], w@) && forall|j: int|
                    0 <= j < i ==> !is_entry(#[trigger] candidates@[j], w@),
                Err(e) => coded(e, ApiErrorKind::Conflict, entry_unavailable_message(), ENTRY_UNAVAILABLE_CODE)
                    && forall|j: int| 0 <= j < candidates@.len() ==> !is_entry(#[trigger] candidates@[j], w@),
            },
        },
{
    if candidates.len() == 0 {
        return Err(
            ApiError::new(
                ApiErrorKind::Conflict,
                owned(
                    "a Chave Móvel Digital não está configurada: preencha application_id, http_basic_username, http_basic_password e ama_cert_pem na credencial CMD do painel de administração",
                ),
            ).with_code(CREDENTIALS_MISSING_CODE),
        );
    }
    let wanted = match entry_id {
        None => {
            return Ok(0);
        },
        Some(w) => w,
    };
    let mut i: usize = 0;
    while i < candidates.len()
        invariant
            0 <= i <= candidates@.len(),
            entry_id == Some(wanted),
            forall|j: int| 0 <= j < i ==> !is_entry(#[trigger] candidates@[j], wanted@),
        decreases candidates.len() - i,
    {
        let hit = match &candidates[i] {
            ResolvedSource::Stored { entry_id, .. } => crate::text::str_eq(entry_id.as_str(), wanted),
            ResolvedSource::Env => false,
        };
        if hit {
            return Ok(i);
        }
        i += 1;
    }
    Err(
        ApiError::new(
            ApiErrorKind::Conflict,
            owned(
                "a credencial indicada não existe ou está desativada; a assinatura de teste não recorre a outra credencial",
            ),
        ).with_code(ENTRY_UNAVAILABLE_CODE),
    )
}

/// Whether position `i` holds the credential a test with pin `entry_id` uses: the first candidate
/// without a pin, else the first stored entry with the pinned id.
pub open spec fn picked(candidates: Seq<ResolvedSource>, entry_id: Option<&str>, i: int) -> bool {
    &&& 0 <= i < candidates.len()
    &&& match entry_id {
        None => i == 0,
        Some(w) => is_entry(candidates[i], w@) && forall|j: int|
            0 <= j < i ==> !is_entry(#[trigger] candidates[j], w@),
    }
}

/// **The order of an initiation's refusals**, before anything is sent: an injected transport, then
/// no storage to retain the result, then a phone number the CMD service cannot take, then the
/// credential (none configured, or a pinned entry that is not among them), and last a credential
/// resolved for pre-production. `production` says, per candidate, whether it resolved to
/// production. Answers the position of the credential the test uses.
pub fn initiate_gates(
    transport_injected: bool,
    has_data_dir: bool,
    phone_ok: bool,
    candidates: &Vec<ResolvedSource>,
    production: &Vec<bool>,
    entry_id: Option<&str>,
) -> (r: Result<usize, ApiError>)
    requires
        production@.len() == candidates@.len(),
    ensures
        transport_injected ==> (r matches Err(e) && coded(e, ApiErrorKind::Conflict, simulated_transport_message(), SIMULATED_TRANSPORT_CODE)),
        !transport_injected && !has_data_dir ==> (r matches Err(e) && coded(e, ApiErrorKind::Conflict, no_retention_message(), NO_RETENTION_STORAGE_CODE)),
        !transport_injected && has_data_dir && !phone_ok ==> (r matches Err(e) && coded(e, ApiErrorKind::Unprocessable, phone_invalid_message(), PHONE_INVALID_CODE)),
        !transport_injected && has_data_dir && phone_ok && candidates@.len() == 0 ==> (r matches Err(e)
            && coded(e, ApiErrorKind::Conflict, credentials_missing_message(), CREDENTIALS_MISSING_CODE)),
        !transport_injected && has_data_dir && phone_ok && candidates@.len() > 0 && (entry_id matches Some(w)
            && forall|j: int| 0 <= j < candidates@.len() ==> !is_entry(#[trigger] candidates@[j], w@)) ==> (r matches Err(e)
            && coded(e, ApiErrorKind::Conflict, entry_unavailable_message(), ENTRY_UNAVAILABLE_CODE)),
        !transport_injected && has_data_dir && phone_ok ==> forall|i: int| #[trigger] picked(candidates@, entry_id, i) ==> if production@[i] {
            r == Ok::<usize, ApiError>(i as usize)
        } else {
            r matches Err(e) && coded(e, ApiErrorKind::Conflict, preprod_message(), ENVIRONMENT_PREPROD_CODE)
        },
{
    if let Err(e) = refuse_injected_transport(transport_injected) {
        return Err(e);
    }
    if let Err(e) = require_retention_storage(has_data_dir) {
        return Err(e);
    }
    if !phone_ok {
        return Err(phone_invalid());
    }
    let i = match pick_candidate(candidates, entry_id) {
        Ok(i) => i,
        Err(e) => {
            return Err(e);
        },
    };
    proof {
        assert forall|k: int| #[trigger] picked(candidates@, entry_id, k) implies k == i as int by {
            match entry_id {
                None => {},
                Some(w) => {
                    if k < i as int {
                        assert(!is_entry(candidates@[k], w@));
                    } else if k > i as int {
                        assert(!is_entry(candidates@[i as int], w@));
                    }
                },
            }
        }
    }
    match require_production(production[i], false) {
        Ok(()) => Ok(i),
        Err(e) => Err(e),
    }
}

/// The message of a confirmation by someone other than the initiator.
pub open spec fn initiator_only_message() -> Seq<char> {
    "apenas quem iniciou a assinatura de teste a pode confirmar"@
}

/// The message of a confirmation after the session expired.
pub open spec fn session_expired_message() -> Seq<char> {
    "a sessão de assinatura de teste expirou; inicie uma nova"@
}

/// When a test session started at `started` (Unix seconds) expires.
pub fn session_expires_at(started: i64) -> (r: i64)
    requires
        started <= i64::MAX - TEST_SESSION_TTL_SECS,
    ensures
        r == started + TEST_SESSION_TTL_SECS,
{
    started + TEST_SESSION_TTL_SECS
}

/// **The confirmation gate**: only the actor who initiated a test may confirm it, and only before
/// the session expires (at its expiry instant it has expired; the caller then drops the session).
pub fn confirm_gate(initiator: &str, actor: &str, now: i64, expires_at: i64) -> (r: Result<(), ApiError>)
    ensures
        initiator@ != actor@ ==> (r matches Err(e) && coded(e, ApiErrorKind::Forbidden, initiator_only_message(), INITIATOR_ONLY_CODE)),
        initiator@ == actor@ && now >= expires_at ==> (r matches Err(e) && coded(e, ApiErrorKind::Gone, session_expired_message(), SESSION_EXPIRED_CODE)),
        initiator@ == actor@ && now < expires_at ==> r is Ok,
{
    if !crate::text::str_eq(initiator, actor) {
        return Err(
            ApiError::new(
                ApiErrorKind::Forbidden,
                owned("apenas quem iniciou a assinatura de teste a pode confirmar"),
            ).with_code(INITIATOR_ONLY_CODE),
        );
    }
    if now >= expires_at {
        return Err(
            ApiError::new(
                ApiErrorKind::Gone,
                owned("a sessão de assinatura de teste expirou; inicie uma nova"),
            ).with_code(SESSION_EXPIRED_CODE),
        );
    }
    Ok(())
}

/// How a PDF signature covers the document, as the validator reports it.
#[derive(Debug, Clone, Copy, PartialEq, Eq, Structural)]
pub enum PdfSignatureCoverage {
    WholeDocument,
    LtvAugmentedSignedRevision,
    AlteredAfterSigning,
    Malformed,
    Unrecognised,
}

/// The wire name of a coverage.
pub open spec fn coverage_name(c: PdfSignatureCoverage) -> Seq<char> {
    match c {
        PdfSignatureCoverage::WholeDocument => "whole_document"@,
        PdfSignatureCoverage::LtvAugmentedSignedRevision => "ltv_augmented_signed_revision"@,
        PdfSignatureCoverage::AlteredAfterSigning => "altered_after_signing"@,
        PdfSignatureCoverage::Malformed => "malformed"@,
        PdfSignatureCoverage::Unrecognised => "unrecognised"@,
    }
}

/// Whether a coverage covers the rendered document: the whole document, or the signed revision
/// with only long-term-validation material appended.
pub open spec fn covers_rendered(c: PdfSignatureCoverage) -> bool {
    c == PdfSignatureCoverage::WholeDocument || c == PdfSignatureCoverage::LtvAugmentedSignedRevision
}

/// What the signature validator reported of a signed document.
#[derive(Debug, Clone, Copy)]
pub struct SignatureReport {
    pub attrs_ok: bool,
    pub coverage: PdfSignatureCoverage,
    pub has_signature_timestamp: bool,
}

/// The self-validation of the signed test document.
#[derive(Debug, Clone)]
pub struct CmdTestSelfValidation {
    pub signature_verifies: bool,
    pub covers_rendered_document: bool,
    pub coverage: String,
    pub signature_timestamp_present: bool,
    pub error: Option<String>,
}

/// The credential-source line of the test document.
pub open spec fn source_line(credential_source: Seq<char>) -> Seq<char> {
    if credential_source == "stored_entry"@ {
        "Credencial guardada no painel de administração"@
    } else {
        "Variáveis de ambiente do servidor"@
    }
}

/// The identification rows of the test document, as (label, value): the instance, the operator,
/// when it was generated, where the credentials came from, the credential used (only when it has a
/// label: an absent label is no row, never an empty or invented one), and the environment.
pub open spec fn test_document_rows_spec(
    instance_name: Seq<char>,
    actor_label: Seq<char>,
    generated_at: Seq<char>,
    credential_source: Seq<char>,
    entry_label: Option<Seq<char>>,
) -> Seq<(Seq<char>, Seq<char>)> {
    let head = seq![
        ("Instância"@, instance_name),
        ("Operador que pediu o teste"@, actor_label),
        ("Momento em que foi gerado"@, generated_at),
        ("Origem das credenciais"@, source_line(credential_source)),
    ];
    let with_label = match entry_label {
        Some(l) => head.push(("Credencial utilizada"@, l)),
        None => head,
    };
    with_label.push(("Ambiente"@, "Produção"@))
}

/// The identification rows of the test document.
pub fn test_document_rows(
    instance_name: &str,
    actor_label: &str,
    generated_at: &str,
    credential_source: &str,
    entry_label: Option<&str>,
) -> (r: Vec<(&'static str, String)>)
    ensures
        r@.map_values(|row: (&'static str, String)| (row.0@, row.1@)) == test_document_rows_spec(
            instance_name@,
            actor_label@,
            generated_at@,
            credential_source@,
            match entry_label {
                Some(l) => Some(l@),
                None => None,
            },
        ),
{
    let source = if crate::text::str_eq(credential_source, "stored_entry") {
        "Credencial guardada no painel de administração"
    } else {
        "Variáveis de ambiente do servidor"
    };
    let mut rows: Vec<(&'static str, String)> = Vec::new();
    rows.push(("Instância", owned(instance_name)));
    rows.push(("Operador que pediu o teste", owned(actor_label)));
    rows.push(("Momento em que foi gerado", owned(generated_at)));
    rows.push(("Origem das credenciais", owned(source)));
    if let Some(label) = entry_label {
        rows.push(("Credencial utilizada", owned(label)));
    }
    rows.push(("Ambiente", owned("Produção")));
    proof {
        let ghost spec_label = match entry_label {
            Some(l) => Some(l@),
            None => None,
        };
        assert(rows@.map_values(|row: (&'static str, String)| (row.0@, row.1@)) =~= test_document_rows_spec(
            instance_name@,
            actor_label@,
            generated_at@,
            credential_source@,
            spec_label,
        ));
    }
    rows
}

/// **The self-validation summary** of the validator's report: a report's findings as they are;
/// a validator error as a plainly negative verdict carrying the error, never as a pass.
pub fn self_validation_of(report: Result<SignatureReport, String>) -> (r: CmdTestSelfValidation)
    ensures
        match report {
            Ok(rep) => r.signature_verifies == rep.attrs_ok && r.covers_rendered_document == covers_rendered(rep.coverage)
                && r.coverage@ == coverage_name(rep.coverage) && r.signature_timestamp_present == rep.has_signature_timestamp
                && r.error is None,
            Err(e) => !r.signature_verifies && !r.covers_rendered_document && r.coverage@ == "unavailable"@
                && !r.signature_timestamp_present && r.error == Some(e),
        },
{
    match report {
        Ok(rep) => {
            let (coverage, covers) = match rep.coverage {
                PdfSignatureCoverage::WholeDocument => ("whole_document", true),
                PdfSignatureCoverage::LtvAugmentedSignedRevision => ("ltv_augmented_signed_revision", true),
                PdfSignatureCoverage::AlteredAfterSigning => ("altered_after_signing", false),
                PdfSignatureCoverage::Malformed => ("malformed", false),
                PdfSignatureCoverage::Unrecognised => ("unrecognised", false),
            };
            CmdTestSelfValidation {
                signature_verifies: rep.attrs_ok,
                covers_rendered_document: covers,
                coverage: owned(coverage),
                signature_timestamp_present: rep.has_signature_timestamp,
                error: None,
            }
        },
        Err(e) => CmdTestSelfValidation {
            signature_verifies: false,
            covers_rendered_document: false,
            coverage: owned("unavailable"),
            signature_timestamp_present: false,
            error: Some(e),
        },
    }
}

/// The request that starts a test signature. The caller checks the confirmation proof.
#[derive(Debug, Clone)]
pub struct CmdTestSignatureInitiateRequest {
    pub phone: String,
    pub pin: String,
    pub entry_id: Option<String>,
    pub actor: Option<String>,
}

/// What starting a test answers: the session awaiting its one-time code.
#[derive(Debug, Clone)]
pub struct CmdTestSignatureInitiateResponse {
    pub session_id: String,
    pub status: &'static str,
    pub masked_phone: String,
    pub credential_source: &'static str,
    pub entry_id: Option<String>,
    pub entry_label: Option<String>,
    pub environment: &'static str,
    pub expires_at: String,
    pub pin_accepted: bool,
    pub provider_contacted: bool,
    pub signer_authorization_requested: bool,
    pub document_signed: bool,
}

impl CmdTestSignatureInitiateResponse {
    /// The answer to a started test: the PIN was accepted by the provider, which was contacted and
    /// asked for the signer's authorization; nothing is signed yet; the environment is production.
    pub fn otp_pending(
        session_id: String,
        masked_phone: String,
        source: &ResolvedSource,
        expires_at: String,
    ) -> (r: CmdTestSignatureInitiateResponse)
        ensures
            r.session_id == session_id,
            r.status@ == "otp_pending"@,
            r.masked_phone == masked_phone,
            r.environment@ == "prod"@,
            r.expires_at == expires_at,
            r.pin_accepted && r.provider_contacted && r.signer_authorization_requested,
            !r.document_signed,
            r.credential_source@ == (if source is Env { "environment"@ } else { "stored_entry"@ }),
            source_named(*source, r.entry_id, r.entry_label),
    {
        let (credential_source, entry_id, entry_label) = describe_source(source);
        CmdTestSignatureInitiateResponse {
            session_id,
            status: "otp_pending",
            masked_phone,
            credential_source,
            entry_id,
            entry_label,
            environment: "prod",
            expires_at,
            pin_accepted: true,
            provider_contacted: true,
            signer_authorization_requested: true,
            document_signed: false,
        }
    }
}

/// The request that confirms a test signature with the one-time code.
#[derive(Debug, Clone)]
pub struct CmdTestSignatureConfirmRequest {
    pub session_id: String,
    pub otp: String,
    pub actor: Option<String>,
}

/// What confirming a test answers.
#[derive(Debug, Clone)]
pub struct CmdTestSignatureConfirmResponse {
    pub test_id: String,
    pub status: &'static str,
    pub provider_contacted: bool,
    pub document_signed: bool,
    pub legal_effect: &'static str,
    pub counts_toward_book_opening: bool,
    pub counts_toward_act_signature: bool,
    pub signed_pdf_digest: String,
    pub signed_pdf_bytes: usize,
    pub signing_time: String,
    pub signed_at: String,
    pub masked_phone: String,
    pub credential_source: &'static str,
    pub entry_id: Option<String>,
    pub entry_label: Option<String>,
    pub environment: &'static str,
    pub trusted_list_status: Option<String>,
    pub timestamped: bool,
    pub retained: bool,
    pub self_validation: CmdTestSelfValidation,
}

/// What a signed test records and answers beyond the fixed honesty flags.
#[derive(Debug, Clone)]
pub struct SignedTest {
    pub test_id: String,
    pub signed_pdf_digest: String,
    pub signed_pdf_bytes: usize,
    pub signing_time: String,
    pub signed_at: String,
    pub masked_phone: String,
    pub trusted_list_status: Option<String>,
    pub timestamped: bool,
}

impl CmdTestSignatureConfirmResponse {
    /// The answer to a confirmed test: signed and retained, in production, with no legal effect,
    /// counting toward neither a book opening nor an act signature.
    pub fn signed(t: SignedTest, source: &ResolvedSource, self_validation: CmdTestSelfValidation) -> (r: CmdTestSignatureConfirmResponse)
        ensures
            r.status@ == "signed"@,
            r.provider_contacted && r.document_signed && r.retained,
            r.legal_effect@ == "none"@,
            !r.counts_toward_book_opening && !r.counts_toward_act_signature,
            r.environment@ == "prod"@,
            r.test_id == t.test_id && r.signed_pdf_digest == t.signed_pdf_digest,
            r.signed_pdf_bytes == t.signed_pdf_bytes && r.timestamped == t.timestamped,
            r.credential_source@ == (if source is Env { "environment"@ } else { "stored_entry"@ }),
            source_named(*source, r.entry_id, r.entry_label),
            r.signing_time == t.signing_time && r.signed_at == t.signed_at,
            r.masked_phone == t.masked_phone && r.trusted_list_status == t.trusted_list_status,
            r.self_validation == self_validation,
    {
        let (credential_source, entry_id, entry_label) = describe_source(source);
        CmdTestSignatureConfirmResponse {
            test_id: t.test_id,
            status: "signed",
            provider_contacted: true,
            document_signed: true,
            legal_effect: LEGAL_EFFECT_NONE,
            counts_toward_book_opening: false,
            counts_toward_act_signature: false,
            signed_pdf_digest: t.signed_pdf_digest,
            signed_pdf_bytes: t.signed_pdf_bytes,
            signing_time: t.signing_time,
            signed_at: t.signed_at,
            masked_phone: t.masked_phone,
            credential_source,
            entry_id,
            entry_label,
            environment: "prod",
            trusted_list_status: t.trusted_list_status,
            timestamped: t.timestamped,
            retained: true,
            self_validation,
        }
    }
}

} // verus!
