use chancela_api::cmd_test_signature::{
    confirm_gate, describe_source, initiate_gates, phone_invalid, test_document_rows, pick_candidate, refuse_injected_transport, require_production,
    require_retention_storage, self_validation_of, session_expires_at, CmdTestSignatureConfirmResponse,
    CmdTestSignatureInitiateResponse, PdfSignatureCoverage, ResolvedSource, SignatureReport, SignedTest,
    CREDENTIALS_MISSING_CODE, ENTRY_UNAVAILABLE_CODE, ENVIRONMENT_PREPROD_CODE, INITIATOR_ONLY_CODE,
    NO_RETENTION_STORAGE_CODE, PHONE_INVALID_CODE, REQUIRES_PRODUCTION_CODE, SESSION_EXPIRED_CODE,
    SIMULATED_TRANSPORT_CODE, TEST_SESSION_TTL_SECS,
};
use chancela_api::error::ApiErrorKind;

fn stored(id: &str, label: &str) -> ResolvedSource {
    ResolvedSource::Stored { entry_id: id.to_owned(), label: label.to_owned() }
}

#[test]
fn the_initiate_response_states_pin_accepted_as_a_value_with_the_honesty_flags_intact() {
    let resp = CmdTestSignatureInitiateResponse::otp_pending(
        "sess".to_owned(),
        "+351 9*****678".to_owned(),
        &stored("cmd-entry-1", "CMD principal"),
        "2026-07-27T10:20:00Z".to_owned(),
    );
    assert!(resp.pin_accepted);
    assert!(resp.provider_contacted);
    assert!(resp.signer_authorization_requested);
    assert!(!resp.document_signed);
    assert_eq!(resp.status, "otp_pending");
    assert_eq!(resp.environment, "prod");
    assert_eq!(resp.credential_source, "stored_entry");
    assert_eq!(resp.entry_id.as_deref(), Some("cmd-entry-1"));
    assert_eq!(resp.entry_label.as_deref(), Some("CMD principal"));
}

#[test]
fn bytes_the_validator_refuses_produce_an_explicit_negative_verdict() {
    let verdict = self_validation_of(Err("no signature dictionary".to_owned()));
    assert!(!verdict.signature_verifies);
    assert!(!verdict.covers_rendered_document);
    assert_eq!(verdict.coverage, "unavailable");
    assert!(!verdict.signature_timestamp_present);
    assert_eq!(verdict.error.as_deref(), Some("no signature dictionary"));
}

#[test]
fn non_pdf_bytes_are_a_verdict_and_not_a_panic() {
    let verdict = self_validation_of(Err("not a PDF".to_owned()));
    assert!(!verdict.signature_verifies);
    assert_eq!(verdict.coverage, "unavailable");
    assert!(verdict.error.is_some());
}

#[test]
fn a_validator_report_is_summarised_as_found() {
    let whole = self_validation_of(Ok(SignatureReport {
        attrs_ok: true,
        coverage: PdfSignatureCoverage::WholeDocument,
        has_signature_timestamp: true,
    }));
    assert!(whole.signature_verifies && whole.covers_rendered_document && whole.signature_timestamp_present);
    assert_eq!(whole.coverage, "whole_document");
    assert!(whole.error.is_none());
    let ltv = self_validation_of(Ok(SignatureReport {
        attrs_ok: true,
        coverage: PdfSignatureCoverage::LtvAugmentedSignedRevision,
        has_signature_timestamp: false,
    }));
    assert!(ltv.covers_rendered_document);
    assert_eq!(ltv.coverage, "ltv_augmented_signed_revision");
    let altered = self_validation_of(Ok(SignatureReport {
        attrs_ok: false,
        coverage: PdfSignatureCoverage::AlteredAfterSigning,
        has_signature_timestamp: false,
    }));
    assert!(!altered.signature_verifies && !altered.covers_rendered_document);
    assert_eq!(altered.coverage, "altered_after_signing");
}

#[test]
fn a_test_never_runs_against_a_simulation_or_without_retention() {
    assert!(refuse_injected_transport(false).is_ok());
    let e = refuse_injected_transport(true).unwrap_err();
    assert_eq!((e.kind, e.code), (ApiErrorKind::Conflict, Some(SIMULATED_TRANSPORT_CODE)));
    assert!(require_retention_storage(true).is_ok());
    let e = require_retention_storage(false).unwrap_err();
    assert_eq!((e.kind, e.code), (ApiErrorKind::Conflict, Some(NO_RETENTION_STORAGE_CODE)));
    assert!(require_production(true, false).is_ok());
    assert!(require_production(true, true).is_ok());
    assert_eq!(require_production(false, false).unwrap_err().code, Some(ENVIRONMENT_PREPROD_CODE));
    let e = require_production(false, true).unwrap_err();
    assert_eq!(e.code, Some(REQUIRES_PRODUCTION_CODE));
    assert_eq!(e.message, "a assinatura de teste só corre contra o ambiente de produção da Chave Móvel Digital");
    let p = phone_invalid();
    assert_eq!((p.kind, p.code), (ApiErrorKind::Unprocessable, Some(PHONE_INVALID_CODE)));
}

#[test]
fn a_pinned_entry_never_falls_back_to_another_credential() {
    let none: Vec<ResolvedSource> = Vec::new();
    assert_eq!(pick_candidate(&none, None).unwrap_err().code, Some(CREDENTIALS_MISSING_CODE));
    let cands = vec![stored("a", "A"), ResolvedSource::Env, stored("b", "B"), stored("b", "B2")];
    assert_eq!(pick_candidate(&cands, None), Ok(0));
    assert_eq!(pick_candidate(&cands, Some("b")), Ok(2), "the first entry with that id");
    let e = pick_candidate(&cands, Some("zzz")).unwrap_err();
    assert_eq!((e.kind, e.code), (ApiErrorKind::Conflict, Some(ENTRY_UNAVAILABLE_CODE)));
}

#[test]
fn only_the_initiator_confirms_and_only_before_expiry() {
    let started = 1_700_000_000;
    let expires = session_expires_at(started);
    assert_eq!(expires, started + TEST_SESSION_TTL_SECS);
    assert!(confirm_gate("amelia", "amelia", started + 10, expires).is_ok());
    let e = confirm_gate("amelia", "bruno", started + 10, expires).unwrap_err();
    assert_eq!((e.kind, e.code), (ApiErrorKind::Forbidden, Some(INITIATOR_ONLY_CODE)));
    let e = confirm_gate("amelia", "amelia", expires, expires).unwrap_err();
    assert_eq!((e.kind, e.code), (ApiErrorKind::Gone, Some(SESSION_EXPIRED_CODE)));
}

#[test]
fn a_signed_test_has_no_legal_effect() {
    let t = SignedTest {
        test_id: "t1".to_owned(),
        signed_pdf_digest: "ab".to_owned(),
        signed_pdf_bytes: 1234,
        signing_time: "2026-07-27T10:16:00Z".to_owned(),
        signed_at: "2026-07-27T10:16:01Z".to_owned(),
        masked_phone: "+351 9*****678".to_owned(),
        trusted_list_status: None,
        timestamped: true,
    };
    let v = self_validation_of(Err("x".to_owned()));
    let r = CmdTestSignatureConfirmResponse::signed(t, &ResolvedSource::Env, v);
    assert_eq!(r.status, "signed");
    assert_eq!(r.legal_effect, "none");
    assert!(!r.counts_toward_book_opening && !r.counts_toward_act_signature);
    assert!(r.document_signed && r.retained && r.provider_contacted);
    assert_eq!(r.credential_source, "environment");
    assert!(r.entry_id.is_none() && r.entry_label.is_none());
    assert_eq!(describe_source(&stored("e", "L")), ("stored_entry", Some("e".to_owned()), Some("L".to_owned())));
}

#[test]
fn initiation_refusals_come_in_order_before_anything_is_sent() {
    let cands = vec![stored("a", "A"), stored("b", "B")];
    let prod = vec![true, false];
    // The injected transport is refused first, whatever else is wrong.
    let e = initiate_gates(true, false, false, &Vec::new(), &Vec::new(), None).unwrap_err();
    assert_eq!(e.code, Some(SIMULATED_TRANSPORT_CODE));
    // Then the missing retention storage.
    let e = initiate_gates(false, false, false, &Vec::new(), &Vec::new(), None).unwrap_err();
    assert_eq!(e.code, Some(NO_RETENTION_STORAGE_CODE));
    // Then the phone number.
    let e = initiate_gates(false, true, false, &cands, &prod, None).unwrap_err();
    assert_eq!(e.code, Some(PHONE_INVALID_CODE));
    assert_eq!(e.kind, ApiErrorKind::Unprocessable);
    // Then the credential.
    let e = initiate_gates(false, true, true, &Vec::new(), &Vec::new(), None).unwrap_err();
    assert_eq!(e.code, Some(CREDENTIALS_MISSING_CODE));
    let e = initiate_gates(false, true, true, &cands, &prod, Some("zz")).unwrap_err();
    assert_eq!(e.code, Some(ENTRY_UNAVAILABLE_CODE));
    // Last, a credential resolved for pre-production.
    let e = initiate_gates(false, true, true, &cands, &prod, Some("b")).unwrap_err();
    assert_eq!(e.code, Some(ENVIRONMENT_PREPROD_CODE));
    assert_eq!(initiate_gates(false, true, true, &cands, &prod, None).unwrap(), 0);
    assert_eq!(initiate_gates(false, true, true, &cands, &vec![false, true], Some("b")).unwrap(), 1);
}

#[test]
fn the_test_document_names_its_credential_only_when_it_has_a_label() {
    let rows = test_document_rows("Acme", "ana", "2026-07-27T10:20:00Z", "stored_entry", Some("CMD principal"));
    let labels: Vec<&str> = rows.iter().map(|r| r.0).collect();
    assert_eq!(
        labels,
        vec![
            "Instância",
            "Operador que pediu o teste",
            "Momento em que foi gerado",
            "Origem das credenciais",
            "Credencial utilizada",
            "Ambiente"
        ]
    );
    assert_eq!(rows[3].1, "Credencial guardada no painel de administração");
    assert_eq!(rows[4].1, "CMD principal");
    assert_eq!(rows[5].1, "Produção");
    let rows = test_document_rows("Acme", "ana", "t", "environment", None);
    assert_eq!(rows.len(), 5);
    assert_eq!(rows[3].1, "Variáveis de ambiente do servidor");
    assert_eq!(rows[4].0, "Ambiente");
}
