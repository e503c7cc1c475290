//! The registry's tables: every guarded action with its wire id, floor, framing and phrase, and
//! the confirmation verdict recorded for every operator-authenticated route.
use vstd::prelude::*;

verus! {

/// How hard an action is to proceed with. Ordered by [`strictness_rank`].
#[derive(Debug, Clone, Copy, PartialEq, Eq, Structural, PartialOrd, Ord, Hash, Default)]
pub enum ConfirmationStrictness {
    /// No confirmation. Only ever the resolved value for an action absent from the registry.
    #[default]
    Off,
    /// A confirmation dialog the operator must accept.
    Confirm,
    /// A confirmation dialog plus step-up re-authentication.
    ConfirmWithReauth,
    /// A confirmation dialog, step-up re-authentication, and a byte-exact typed phrase.
    ConfirmWithReauthAndPhrase,
}

/// The position of a strictness level in the order `Off < Confirm < ConfirmWithReauth <
/// ConfirmWithReauthAndPhrase`.
pub open spec fn strictness_rank(s: ConfirmationStrictness) -> nat {
    match s {
        ConfirmationStrictness::Off => 0,
        ConfirmationStrictness::Confirm => 1,
        ConfirmationStrictness::ConfirmWithReauth => 2,
        ConfirmationStrictness::ConfirmWithReauthAndPhrase => 3,
    }
}

/// [`strictness_rank`], computed.
pub fn strictness_level(s: ConfirmationStrictness) -> (r: u8)
    ensures
        r as nat == strictness_rank(s),
{
    match s {
        ConfirmationStrictness::Off => 0,
        ConfirmationStrictness::Confirm => 1,
        ConfirmationStrictness::ConfirmWithReauth => 2,
        ConfirmationStrictness::ConfirmWithReauthAndPhrase => 3,
    }
}

/// How an action is **framed**, independent of how hard it is to proceed with.
#[derive(Debug, Clone, Copy, PartialEq, Eq, Structural)]
pub enum ConfirmationConsequence {
    /// Removes, closes, or forecloses something. Destructive framing is honest here.
    Destructive,
    /// Consequential but not destructive: a legitimate administrative act.
    Consequential,
}

/// Every guarded action in the product.
#[derive(Debug, Clone, Copy, PartialEq, Eq, Structural, PartialOrd, Ord, Hash)]
pub enum ConfirmationAction {
    BookClose,
    TermoAberturaAdvance,
    TermoAberturaOpen,
    TermoEncerramentoAdvance,
    TermoEncerramentoClose,
    TermoWithdraw,
    BookStartOver,
    BookArchiveDisposal,
    BookImport,
    LegalHoldRelease,
    CmdTestSignature,
    ActSeal,
    ActArchive,
    ActRevert,
    ActReopen,
    UserDisable,
    UserBulkDisable,
    UserBulkRoleChange,
    RoleAssign,
    RoleUnassign,
    RoleDelete,
    RolePermissionChange,
    RoleSeededReconciliation,
    DelegationRevoke,
    DelegationSuspend,
    ApiKeyRevoke,
    ApiKeyRotate,
    DevicePairing,
    PairingDeviceRevoke,
    SessionRevoke,
    SessionRevokeOthers,
    TwoFactorDisable,
    TwoFactorBackupCodesRegenerate,
    LedgerReanchor,
    LedgerRestore,
    DataKeyRotation,
    DataCleanupExports,
    DataCleanupOperational,
    PrivacyErasureExecute,
    SettingsReplace,
    EntityTypeDisable,
    PlatformEnvReplace,
    PlatformServiceControl,
    TrustListRefresh,
    EmailPasswordDelete,
    SearchRebuild,
    SearchPause,
    TemplateReplace,
    TemplateDelete,
    TemplateVersionDelete,
    TemplateVersionRestore,
    TemplateLibraryArchive,
    EntityArchive,
    GroupArchive,
    GroupEntityRemove,
    RepositoryDelete,
    RepositoryPolicyDelete,
    ConnectorTargetArchive,
    ConnectorJobCancel,
    SigningCredentialDelete,
    ExternalSignerInviteRevoke,
    StoredCredentialSignature,
    BatchSignature,
    LawPdfDelete,
}

/// Every action, in declaration order.
pub open spec fn all_actions() -> Seq<ConfirmationAction> {
    seq![ConfirmationAction::BookClose, ConfirmationAction::TermoAberturaAdvance, ConfirmationAction::TermoAberturaOpen, ConfirmationAction::TermoEncerramentoAdvance, ConfirmationAction::TermoEncerramentoClose, ConfirmationAction::TermoWithdraw, ConfirmationAction::BookStartOver, ConfirmationAction::BookArchiveDisposal, ConfirmationAction::BookImport, ConfirmationAction::LegalHoldRelease, ConfirmationAction::CmdTestSignature, ConfirmationAction::ActSeal, ConfirmationAction::ActArchive, ConfirmationAction::ActRevert, ConfirmationAction::ActReopen, ConfirmationAction::UserDisable, ConfirmationAction::UserBulkDisable, ConfirmationAction::UserBulkRoleChange, ConfirmationAction::RoleAssign, ConfirmationAction::RoleUnassign, ConfirmationAction::RoleDelete, ConfirmationAction::RolePermissionChange, ConfirmationAction::RoleSeededReconciliation, ConfirmationAction::DelegationRevoke, ConfirmationAction::DelegationSuspend, ConfirmationAction::ApiKeyRevoke, ConfirmationAction::ApiKeyRotate, ConfirmationAction::DevicePairing, ConfirmationAction::PairingDeviceRevoke, ConfirmationAction::SessionRevoke, ConfirmationAction::SessionRevokeOthers, ConfirmationAction::TwoFactorDisable, ConfirmationAction::TwoFactorBackupCodesRegenerate, ConfirmationAction::LedgerReanchor, ConfirmationAction::LedgerRestore, ConfirmationAction::DataKeyRotation, ConfirmationAction::DataCleanupExports, ConfirmationAction::DataCleanupOperational, ConfirmationAction::PrivacyErasureExecute, ConfirmationAction::SettingsReplace, ConfirmationAction::EntityTypeDisable, ConfirmationAction::PlatformEnvReplace, ConfirmationAction::PlatformServiceControl, ConfirmationAction::TrustListRefresh, ConfirmationAction::EmailPasswordDelete, ConfirmationAction::SearchRebuild, ConfirmationAction::SearchPause, ConfirmationAction::TemplateReplace, ConfirmationAction::TemplateDelete, ConfirmationAction::TemplateVersionDelete, ConfirmationAction::TemplateVersionRestore, ConfirmationAction::TemplateLibraryArchive, ConfirmationAction::EntityArchive, ConfirmationAction::GroupArchive, ConfirmationAction::GroupEntityRemove, ConfirmationAction::RepositoryDelete, ConfirmationAction::RepositoryPolicyDelete, ConfirmationAction::ConnectorTargetArchive, ConfirmationAction::ConnectorJobCancel, ConfirmationAction::SigningCredentialDelete, ConfirmationAction::ExternalSignerInviteRevoke, ConfirmationAction::StoredCredentialSignature, ConfirmationAction::BatchSignature, ConfirmationAction::LawPdfDelete]
}

/// The stable wire identifier of an action.
pub open spec fn action_id(a: ConfirmationAction) -> Seq<char> {
    match a {
        ConfirmationAction::BookClose => "book.close"@,
        ConfirmationAction::TermoAberturaAdvance => "termo_abertura.advance"@,
        ConfirmationAction::TermoAberturaOpen => "termo_abertura.open"@,
        ConfirmationAction::TermoEncerramentoAdvance => "termo_encerramento.advance"@,
        ConfirmationAction::TermoEncerramentoClose => "termo_encerramento.close"@,
        ConfirmationAction::TermoWithdraw => "termo.withdraw"@,
        ConfirmationAction::BookStartOver => "book.start_over"@,
        ConfirmationAction::BookArchiveDisposal => "book.archive_disposal"@,
        ConfirmationAction::BookImport => "book.import"@,
        ConfirmationAction::LegalHoldRelease => "legal_hold.release"@,
        ConfirmationAction::CmdTestSignature => "signature.cmd_test"@,
        ConfirmationAction::ActSeal => "act.seal"@,
        ConfirmationAction::ActArchive => "act.archive"@,
        ConfirmationAction::ActRevert => "act.revert"@,
        ConfirmationAction::ActReopen => "act.reopen"@,
        ConfirmationAction::UserDisable => "user.disable"@,
        ConfirmationAction::UserBulkDisable => "user.bulk_disable"@,
        ConfirmationAction::UserBulkRoleChange => "user.bulk_role_change"@,
        ConfirmationAction::RoleAssign => "role.assign"@,
        ConfirmationAction::RoleUnassign => "role.unassign"@,
        ConfirmationAction::RoleDelete => "role.delete"@,
        ConfirmationAction::RolePermissionChange => "role.permission_change"@,
        ConfirmationAction::RoleSeededReconciliation => "role.seeded_reconciliation"@,
        ConfirmationAction::DelegationRevoke => "delegation.revoke"@,
        ConfirmationAction::DelegationSuspend => "delegation.suspend"@,
        ConfirmationAction::ApiKeyRevoke => "api_key.revoke"@,
        ConfirmationAction::ApiKeyRotate => "api_key.rotate"@,
        ConfirmationAction::DevicePairing => "device.pairing"@,
        ConfirmationAction::PairingDeviceRevoke => "device.revoke"@,
        ConfirmationAction::SessionRevoke => "session.revoke"@,
        ConfirmationAction::SessionRevokeOthers => "session.revoke_others"@,
        ConfirmationAction::TwoFactorDisable => "two_factor.disable"@,
        ConfirmationAction::TwoFactorBackupCodesRegenerate => "two_factor.backup_codes_regenerate"@,
        ConfirmationAction::LedgerReanchor => "ledger.reanchor"@,
        ConfirmationAction::LedgerRestore => "ledger.restore"@,
        ConfirmationAction::DataKeyRotation => "data.key_rotation"@,
        ConfirmationAction::DataCleanupExports => "data.cleanup_exports"@,
        ConfirmationAction::DataCleanupOperational => "data.cleanup_operational"@,
        ConfirmationAction::PrivacyErasureExecute => "privacy.erasure_execute"@,
        ConfirmationAction::SettingsReplace => "settings.replace"@,
        ConfirmationAction::EntityTypeDisable => "entity_type.disable"@,
        ConfirmationAction::PlatformEnvReplace => "platform.env_replace"@,
        ConfirmationAction::PlatformServiceControl => "platform.service_control"@,
        ConfirmationAction::TrustListRefresh => "trust.list_refresh"@,
        ConfirmationAction::EmailPasswordDelete => "email.password_delete"@,
        ConfirmationAction::SearchRebuild => "search.rebuild"@,
        ConfirmationAction::SearchPause => "search.pause"@,
        ConfirmationAction::TemplateReplace => "template.replace"@,
        ConfirmationAction::TemplateDelete => "template.delete"@,
        ConfirmationAction::TemplateVersionDelete => "template.version_delete"@,
        ConfirmationAction::TemplateVersionRestore => "template.version_restore"@,
        ConfirmationAction::TemplateLibraryArchive => "template_library.archive"@,
        ConfirmationAction::EntityArchive => "entity.archive"@,
        ConfirmationAction::GroupArchive => "group.archive"@,
        ConfirmationAction::GroupEntityRemove => "group.entity_remove"@,
        ConfirmationAction::RepositoryDelete => "repository.delete"@,
        ConfirmationAction::RepositoryPolicyDelete => "repository.policy_delete"@,
        ConfirmationAction::ConnectorTargetArchive => "connector_target.archive"@,
        ConfirmationAction::ConnectorJobCancel => "connector_job.cancel"@,
        ConfirmationAction::SigningCredentialDelete => "signing_credential.delete"@,
        ConfirmationAction::ExternalSignerInviteRevoke => "external_signer_invite.revoke"@,
        ConfirmationAction::StoredCredentialSignature => "signature.stored_credential"@,
        ConfirmationAction::BatchSignature => "signature.batch"@,
        ConfirmationAction::LawPdfDelete => "law.pdf_delete"@,
    }
}

/// The lowest strictness an action may ever be performed at.
pub open spec fn action_floor(a: ConfirmationAction) -> ConfirmationStrictness {
    match a {
        ConfirmationAction::BookClose
        | ConfirmationAction::TermoAberturaOpen
        | ConfirmationAction::TermoEncerramentoClose
        | ConfirmationAction::BookStartOver
        | ConfirmationAction::BookArchiveDisposal
        | ConfirmationAction::CmdTestSignature
        | ConfirmationAction::UserBulkRoleChange
        | ConfirmationAction::LedgerReanchor
        | ConfirmationAction::LedgerRestore
        | ConfirmationAction::DataKeyRotation
        | ConfirmationAction::DataCleanupExports
        | ConfirmationAction::PrivacyErasureExecute => ConfirmationStrictness::ConfirmWithReauthAndPhrase,
        ConfirmationAction::TermoAberturaAdvance
        | ConfirmationAction::TermoEncerramentoAdvance
        | ConfirmationAction::TermoWithdraw
        | ConfirmationAction::BookImport
        | ConfirmationAction::ActSeal
        | ConfirmationAction::ActRevert
        | ConfirmationAction::ActReopen
        | ConfirmationAction::UserDisable
        | ConfirmationAction::RoleAssign
        | ConfirmationAction::RoleSeededReconciliation
        | ConfirmationAction::DelegationRevoke
        | ConfirmationAction::DelegationSuspend
        | ConfirmationAction::ApiKeyRevoke
        | ConfirmationAction::ApiKeyRotate
        | ConfirmationAction::PairingDeviceRevoke
        | ConfirmationAction::SessionRevoke
        | ConfirmationAction::SessionRevokeOthers
        | ConfirmationAction::TwoFactorBackupCodesRegenerate
        | ConfirmationAction::DataCleanupOperational
        | ConfirmationAction::SettingsReplace
        | ConfirmationAction::EntityTypeDisable
        | ConfirmationAction::PlatformEnvReplace
        | ConfirmationAction::PlatformServiceControl
        | ConfirmationAction::EmailPasswordDelete
        | ConfirmationAction::SearchRebuild
        | ConfirmationAction::SearchPause
        | ConfirmationAction::TemplateReplace
        | ConfirmationAction::TemplateDelete
        | ConfirmationAction::TemplateVersionDelete
        | ConfirmationAction::TemplateVersionRestore
        | ConfirmationAction::TemplateLibraryArchive
        | ConfirmationAction::EntityArchive
        | ConfirmationAction::GroupArchive
        | ConfirmationAction::GroupEntityRemove
        | ConfirmationAction::RepositoryDelete
        | ConfirmationAction::RepositoryPolicyDelete
        | ConfirmationAction::ConnectorTargetArchive
        | ConfirmationAction::ConnectorJobCancel
        | ConfirmationAction::SigningCredentialDelete
        | ConfirmationAction::ExternalSignerInviteRevoke
        | ConfirmationAction::StoredCredentialSignature
        | ConfirmationAction::BatchSignature
        | ConfirmationAction::LawPdfDelete => ConfirmationStrictness::Confirm,
        ConfirmationAction::LegalHoldRelease
        | ConfirmationAction::ActArchive
        | ConfirmationAction::UserBulkDisable
        | ConfirmationAction::RoleUnassign
        | ConfirmationAction::RoleDelete
        | ConfirmationAction::RolePermissionChange
        | ConfirmationAction::DevicePairing
        | ConfirmationAction::TwoFactorDisable
        | ConfirmationAction::TrustListRefresh => ConfirmationStrictness::ConfirmWithReauth,
    }
}

/// How an action is framed.
pub open spec fn action_consequence(a: ConfirmationAction) -> ConfirmationConsequence {
    match a {
        ConfirmationAction::BookClose
        | ConfirmationAction::TermoEncerramentoClose
        | ConfirmationAction::BookStartOver
        | ConfirmationAction::BookArchiveDisposal
        | ConfirmationAction::LegalHoldRelease
        | ConfirmationAction::UserDisable
        | ConfirmationAction::UserBulkDisable
        | ConfirmationAction::UserBulkRoleChange
        | ConfirmationAction::RoleUnassign
        | ConfirmationAction::RoleDelete
        | ConfirmationAction::RolePermissionChange
        | ConfirmationAction::DelegationRevoke
        | ConfirmationAction::ApiKeyRevoke
        | ConfirmationAction::PairingDeviceRevoke
        | ConfirmationAction::SessionRevoke
        | ConfirmationAction::SessionRevokeOthers
        | ConfirmationAction::TwoFactorDisable
        | ConfirmationAction::LedgerReanchor
        | ConfirmationAction::LedgerRestore
        | ConfirmationAction::DataCleanupExports
        | ConfirmationAction::PrivacyErasureExecute
        | ConfirmationAction::EmailPasswordDelete
        | ConfirmationAction::TemplateDelete
        | ConfirmationAction::TemplateVersionDelete
        | ConfirmationAction::TemplateLibraryArchive
        | ConfirmationAction::GroupArchive
        | ConfirmationAction::GroupEntityRemove
        | ConfirmationAction::RepositoryDelete
        | ConfirmationAction::RepositoryPolicyDelete
        | ConfirmationAction::ConnectorTargetArchive
        | ConfirmationAction::SigningCredentialDelete
        | ConfirmationAction::ExternalSignerInviteRevoke
        | ConfirmationAction::LawPdfDelete => ConfirmationConsequence::Destructive,
        ConfirmationAction::TermoAberturaAdvance
        | ConfirmationAction::TermoAberturaOpen
        | ConfirmationAction::TermoEncerramentoAdvance
        | ConfirmationAction::TermoWithdraw
        | ConfirmationAction::BookImport
        | ConfirmationAction::CmdTestSignature
        | ConfirmationAction::ActSeal
        | ConfirmationAction::ActArchive
        | ConfirmationAction::ActRevert
        | ConfirmationAction::ActReopen
        | ConfirmationAction::RoleAssign
        | ConfirmationAction::RoleSeededReconciliation
        | ConfirmationAction::DelegationSuspend
        | ConfirmationAction::ApiKeyRotate
        | ConfirmationAction::DevicePairing
        | ConfirmationAction::TwoFactorBackupCodesRegenerate
        | ConfirmationAction::DataKeyRotation
        | ConfirmationAction::DataCleanupOperational
        | ConfirmationAction::SettingsReplace
        | ConfirmationAction::EntityTypeDisable
        | ConfirmationAction::PlatformEnvReplace
        | ConfirmationAction::PlatformServiceControl
        | ConfirmationAction::TrustListRefresh
        | ConfirmationAction::SearchRebuild
        | ConfirmationAction::SearchPause
        | ConfirmationAction::TemplateReplace
        | ConfirmationAction::TemplateVersionRestore
        | ConfirmationAction::EntityArchive
        | ConfirmationAction::ConnectorJobCancel
        | ConfirmationAction::StoredCredentialSignature
        | ConfirmationAction::BatchSignature => ConfirmationConsequence::Consequential,
    }
}

/// The phrase an operator must transcribe, for the actions that demand one.
pub open spec fn action_phrase(a: ConfirmationAction) -> Option<Seq<char>> {
    match a {
        ConfirmationAction::BookClose => Some("ENCERRAR LIVRO"@),
        ConfirmationAction::TermoAberturaOpen => Some("ABRIR LIVRO"@),
        ConfirmationAction::TermoEncerramentoClose => Some("ENCERRAR LIVRO"@),
        ConfirmationAction::BookStartOver => Some("RECOMEÇAR LIVRO"@),
        ConfirmationAction::BookArchiveDisposal => Some("REGISTAR DISPOSIÇÃO"@),
        ConfirmationAction::CmdTestSignature => Some("ASSINAR TESTE"@),
        ConfirmationAction::UserBulkRoleChange => Some("ALTERAR PAPÉIS"@),
        ConfirmationAction::LedgerReanchor => Some("RECONSTRUIR CADEIA"@),
        ConfirmationAction::LedgerRestore => Some("RESTAURAR REGISTO"@),
        ConfirmationAction::DataKeyRotation => Some("SUBSTITUIR CHAVE"@),
        ConfirmationAction::DataCleanupExports => Some("ELIMINAR EXPORTAÇÕES"@),
        ConfirmationAction::PrivacyErasureExecute => Some("APAGAR TITULAR"@),
        _ => None,
    }
}

impl ConfirmationAction {
    /// Every variant, in declaration order.
    pub fn all() -> (r: Vec<ConfirmationAction>)
        ensures
            r@ == all_actions(),
    {
        vec![ConfirmationAction::BookClose, ConfirmationAction::TermoAberturaAdvance, ConfirmationAction::TermoAberturaOpen, ConfirmationAction::TermoEncerramentoAdvance, ConfirmationAction::TermoEncerramentoClose, ConfirmationAction::TermoWithdraw, ConfirmationAction::BookStartOver, ConfirmationAction::BookArchiveDisposal, ConfirmationAction::BookImport, ConfirmationAction::LegalHoldRelease, ConfirmationAction::CmdTestSignature, ConfirmationAction::ActSeal, ConfirmationAction::ActArchive, ConfirmationAction::ActRevert, ConfirmationAction::ActReopen, ConfirmationAction::UserDisable, ConfirmationAction::UserBulkDisable, ConfirmationAction::UserBulkRoleChange, ConfirmationAction::RoleAssign, ConfirmationAction::RoleUnassign, ConfirmationAction::RoleDelete, ConfirmationAction::RolePermissionChange, ConfirmationAction::RoleSeededReconciliation, ConfirmationAction::DelegationRevoke, ConfirmationAction::DelegationSuspend, ConfirmationAction::ApiKeyRevoke, ConfirmationAction::ApiKeyRotate, ConfirmationAction::DevicePairing, ConfirmationAction::PairingDeviceRevoke, ConfirmationAction::SessionRevoke, ConfirmationAction::SessionRevokeOthers, ConfirmationAction::TwoFactorDisable, ConfirmationAction::TwoFactorBackupCodesRegenerate, ConfirmationAction::LedgerReanchor, ConfirmationAction::LedgerRestore, ConfirmationAction::DataKeyRotation, ConfirmationAction::DataCleanupExports, ConfirmationAction::DataCleanupOperational, ConfirmationAction::PrivacyErasureExecute, ConfirmationAction::SettingsReplace, ConfirmationAction::EntityTypeDisable, ConfirmationAction::PlatformEnvReplace, ConfirmationAction::PlatformServiceControl, ConfirmationAction::TrustListRefresh, ConfirmationAction::EmailPasswordDelete, ConfirmationAction::SearchRebuild, ConfirmationAction::SearchPause, ConfirmationAction::TemplateReplace, ConfirmationAction::TemplateDelete, ConfirmationAction::TemplateVersionDelete, ConfirmationAction::TemplateVersionRestore, ConfirmationAction::TemplateLibraryArchive, ConfirmationAction::EntityArchive, ConfirmationAction::GroupArchive, ConfirmationAction::GroupEntityRemove, ConfirmationAction::RepositoryDelete, ConfirmationAction::RepositoryPolicyDelete, ConfirmationAction::ConnectorTargetArchive, ConfirmationAction::ConnectorJobCancel, ConfirmationAction::SigningCredentialDelete, ConfirmationAction::ExternalSignerInviteRevoke, ConfirmationAction::StoredCredentialSignature, ConfirmationAction::BatchSignature, ConfirmationAction::LawPdfDelete]
    }

    /// The stable wire identifier, as `GET /v1/confirmation-policy` emits it and the settings map
    /// keys on it.
    pub fn as_str(self) -> (r: &'static str)
        ensures
            r@ == action_id(self),
    {
        match self {
            ConfirmationAction::BookClose => "book.close",
            ConfirmationAction::TermoAberturaAdvance => "termo_abertura.advance",
            ConfirmationAction::TermoAberturaOpen => "termo_abertura.open",
            ConfirmationAction::TermoEncerramentoAdvance => "termo_encerramento.advance",
            ConfirmationAction::TermoEncerramentoClose => "termo_encerramento.close",
            ConfirmationAction::TermoWithdraw => "termo.withdraw",
            ConfirmationAction::BookStartOver => "book.start_over",
            ConfirmationAction::BookArchiveDisposal => "book.archive_disposal",
            ConfirmationAction::BookImport => "book.import",
            ConfirmationAction::LegalHoldRelease => "legal_hold.release",
            ConfirmationAction::CmdTestSignature => "signature.cmd_test",
            ConfirmationAction::ActSeal => "act.seal",
            ConfirmationAction::ActArchive => "act.archive",
            ConfirmationAction::ActRevert => "act.revert",
            ConfirmationAction::ActReopen => "act.reopen",
            ConfirmationAction::UserDisable => "user.disable",
            ConfirmationAction::UserBulkDisable => "user.bulk_disable",
            ConfirmationAction::UserBulkRoleChange => "user.bulk_role_change",
            ConfirmationAction::RoleAssign => "role.assign",
            ConfirmationAction::RoleUnassign => "role.unassign",
            ConfirmationAction::RoleDelete => "role.delete",
            ConfirmationAction::RolePermissionChange => "role.permission_change",
            ConfirmationAction::RoleSeededReconciliation => "role.seeded_reconciliation",
            ConfirmationAction::DelegationRevoke => "delegation.revoke",
            ConfirmationAction::DelegationSuspend => "delegation.suspend",
            ConfirmationAction::ApiKeyRevoke => "api_key.revoke",
            ConfirmationAction::ApiKeyRotate => "api_key.rotate",
            ConfirmationAction::DevicePairing => "device.pairing",
            ConfirmationAction::PairingDeviceRevoke => "device.revoke",
            ConfirmationAction::SessionRevoke => "session.revoke",
            ConfirmationAction::SessionRevokeOthers => "session.revoke_others",
            ConfirmationAction::TwoFactorDisable => "two_factor.disable",
            ConfirmationAction::TwoFactorBackupCodesRegenerate => "two_factor.backup_codes_regenerate",
            ConfirmationAction::LedgerReanchor => "ledger.reanchor",
            ConfirmationAction::LedgerRestore => "ledger.restore",
            ConfirmationAction::DataKeyRotation => "data.key_rotation",
            ConfirmationAction::DataCleanupExports => "data.cleanup_exports",
            ConfirmationAction::DataCleanupOperational => "data.cleanup_operational",
            ConfirmationAction::PrivacyErasureExecute => "privacy.erasure_execute",
            ConfirmationAction::SettingsReplace => "settings.replace",
            ConfirmationAction::EntityTypeDisable => "entity_type.disable",
            ConfirmationAction::PlatformEnvReplace => "platform.env_replace",
            ConfirmationAction::PlatformServiceControl => "platform.service_control",
            ConfirmationAction::TrustListRefresh => "trust.list_refresh",
            ConfirmationAction::EmailPasswordDelete => "email.password_delete",
            ConfirmationAction::SearchRebuild => "search.rebuild",
            ConfirmationAction::SearchPause => "search.pause",
            ConfirmationAction::TemplateReplace => "template.replace",
            ConfirmationAction::TemplateDelete => "template.delete",
            ConfirmationAction::TemplateVersionDelete => "template.version_delete",
            ConfirmationAction::TemplateVersionRestore => "template.version_restore",
            ConfirmationAction::TemplateLibraryArchive => "template_library.archive",
            ConfirmationAction::EntityArchive => "entity.archive",
            ConfirmationAction::GroupArchive => "group.archive",
            ConfirmationAction::GroupEntityRemove => "group.entity_remove",
            ConfirmationAction::RepositoryDelete => "repository.delete",
            ConfirmationAction::RepositoryPolicyDelete => "repository.policy_delete",
            ConfirmationAction::ConnectorTargetArchive => "connector_target.archive",
            ConfirmationAction::ConnectorJobCancel => "connector_job.cancel",
            ConfirmationAction::SigningCredentialDelete => "signing_credential.delete",
            ConfirmationAction::ExternalSignerInviteRevoke => "external_signer_invite.revoke",
            ConfirmationAction::StoredCredentialSignature => "signature.stored_credential",
            ConfirmationAction::BatchSignature => "signature.batch",
            ConfirmationAction::LawPdfDelete => "law.pdf_delete",
        }
    }

    /// The lowest strictness this action may ever be performed at.
    pub fn floor(self) -> (r: ConfirmationStrictness)
        ensures
            r == action_floor(self),
    {
        match self {
            ConfirmationAction::BookClose
            | ConfirmationAction::TermoAberturaOpen
            | ConfirmationAction::TermoEncerramentoClose
            | ConfirmationAction::BookStartOver
            | ConfirmationAction::BookArchiveDisposal
            | ConfirmationAction::CmdTestSignature
            | ConfirmationAction::UserBulkRoleChange
            | ConfirmationAction::LedgerReanchor
            | ConfirmationAction::LedgerRestore
            | ConfirmationAction::DataKeyRotation
            | ConfirmationAction::DataCleanupExports
            | ConfirmationAction::PrivacyErasureExecute => ConfirmationStrictness::ConfirmWithReauthAndPhrase,
            ConfirmationAction::TermoAberturaAdvance
            | ConfirmationAction::TermoEncerramentoAdvance
            | ConfirmationAction::TermoWithdraw
            | ConfirmationAction::BookImport
            | ConfirmationAction::ActSeal
            | ConfirmationAction::ActRevert
            | ConfirmationAction::ActReopen
            | ConfirmationAction::UserDisable
            | ConfirmationAction::RoleAssign
            | ConfirmationAction::RoleSeededReconciliation
            | ConfirmationAction::DelegationRevoke
            | ConfirmationAction::DelegationSuspend
            | ConfirmationAction::ApiKeyRevoke
            | ConfirmationAction::ApiKeyRotate
            | ConfirmationAction::PairingDeviceRevoke
            | ConfirmationAction::SessionRevoke
            | ConfirmationAction::SessionRevokeOthers
            | ConfirmationAction::TwoFactorBackupCodesRegenerate
            | ConfirmationAction::DataCleanupOperational
            | ConfirmationAction::SettingsReplace
            | ConfirmationAction::EntityTypeDisable
            | ConfirmationAction::PlatformEnvReplace
            | ConfirmationAction::PlatformServiceControl
            | ConfirmationAction::EmailPasswordDelete
            | ConfirmationAction::SearchRebuild
            | ConfirmationAction::SearchPause
            | ConfirmationAction::TemplateReplace
            | ConfirmationAction::TemplateDelete
            | ConfirmationAction::TemplateVersionDelete
            | ConfirmationAction::TemplateVersionRestore
            | ConfirmationAction::TemplateLibraryArchive
            | ConfirmationAction::EntityArchive
            | ConfirmationAction::GroupArchive
            | ConfirmationAction::GroupEntityRemove
            | ConfirmationAction::RepositoryDelete
            | ConfirmationAction::RepositoryPolicyDelete
            | ConfirmationAction::ConnectorTargetArchive
            | ConfirmationAction::ConnectorJobCancel
            | ConfirmationAction::SigningCredentialDelete
            | ConfirmationAction::ExternalSignerInviteRevoke
            | ConfirmationAction::StoredCredentialSignature
            | ConfirmationAction::BatchSignature
            | ConfirmationAction::LawPdfDelete => ConfirmationStrictness::Confirm,
            ConfirmationAction::LegalHoldRelease
            | ConfirmationAction::ActArchive
            | ConfirmationAction::UserBulkDisable
            | ConfirmationAction::RoleUnassign
            | ConfirmationAction::RoleDelete
            | ConfirmationAction::RolePermissionChange
            | ConfirmationAction::DevicePairing
            | ConfirmationAction::TwoFactorDisable
            | ConfirmationAction::TrustListRefresh => ConfirmationStrictness::ConfirmWithReauth,
        }
    }

    /// How the action is framed; independent of [`ConfirmationAction::floor`].
    pub fn consequence(self) -> (r: ConfirmationConsequence)
        ensures
            r == action_consequence(self),
    {
        match self {
            ConfirmationAction::BookClose
            | ConfirmationAction::TermoEncerramentoClose
            | ConfirmationAction::BookStartOver
            | ConfirmationAction::BookArchiveDisposal
            | ConfirmationAction::LegalHoldRelease
            | ConfirmationAction::UserDisable
            | ConfirmationAction::UserBulkDisable
            | ConfirmationAction::UserBulkRoleChange
            | ConfirmationAction::RoleUnassign
            | ConfirmationAction::RoleDelete
            | ConfirmationAction::RolePermissionChange
            | ConfirmationAction::DelegationRevoke
            | ConfirmationAction::ApiKeyRevoke
            | ConfirmationAction::PairingDeviceRevoke
            | ConfirmationAction::SessionRevoke
            | ConfirmationAction::SessionRevokeOthers
            | ConfirmationAction::TwoFactorDisable
            | ConfirmationAction::LedgerReanchor
            | ConfirmationAction::LedgerRestore
            | ConfirmationAction::DataCleanupExports
            | ConfirmationAction::PrivacyErasureExecute
            | ConfirmationAction::EmailPasswordDelete
            | ConfirmationAction::TemplateDelete
            | ConfirmationAction::TemplateVersionDelete
            | ConfirmationAction::TemplateLibraryArchive
            | ConfirmationAction::GroupArchive
            | ConfirmationAction::GroupEntityRemove
            | ConfirmationAction::RepositoryDelete
            | ConfirmationAction::RepositoryPolicyDelete
            | ConfirmationAction::ConnectorTargetArchive
            | ConfirmationAction::SigningCredentialDelete
            | ConfirmationAction::ExternalSignerInviteRevoke
            | ConfirmationAction::LawPdfDelete => ConfirmationConsequence::Destructive,
            ConfirmationAction::TermoAberturaAdvance
            | ConfirmationAction::TermoAberturaOpen
            | ConfirmationAction::TermoEncerramentoAdvance
            | ConfirmationAction::TermoWithdraw
            | ConfirmationAction::BookImport
            | ConfirmationAction::CmdTestSignature
            | ConfirmationAction::ActSeal
            | ConfirmationAction::ActArchive
            | ConfirmationAction::ActRevert
            | ConfirmationAction::ActReopen
            | ConfirmationAction::RoleAssign
            | ConfirmationAction::RoleSeededReconciliation
            | ConfirmationAction::DelegationSuspend
            | ConfirmationAction::ApiKeyRotate
            | ConfirmationAction::DevicePairing
            | ConfirmationAction::TwoFactorBackupCodesRegenerate
            | ConfirmationAction::DataKeyRotation
            | ConfirmationAction::DataCleanupOperational
            | ConfirmationAction::SettingsReplace
            | ConfirmationAction::EntityTypeDisable
            | ConfirmationAction::PlatformEnvReplace
            | ConfirmationAction::PlatformServiceControl
            | ConfirmationAction::TrustListRefresh
            | ConfirmationAction::SearchRebuild
            | ConfirmationAction::SearchPause
            | ConfirmationAction::TemplateReplace
            | ConfirmationAction::TemplateVersionRestore
            | ConfirmationAction::EntityArchive
            | ConfirmationAction::ConnectorJobCancel
            | ConfirmationAction::StoredCredentialSignature
            | ConfirmationAction::BatchSignature => ConfirmationConsequence::Consequential,
        }
    }

    /// The byte-exact phrase the operator must transcribe, present exactly for the actions floored at
    /// [`ConfirmationStrictness::ConfirmWithReauthAndPhrase`].
    pub fn phrase(self) -> (r: Option<&'static str>)
        ensures
            match r {
                Some(p) => action_phrase(self) == Some(p@),
                None => action_phrase(self) is None,
            },
    {
        match self {
            ConfirmationAction::BookClose => Some("ENCERRAR LIVRO"),
            ConfirmationAction::TermoAberturaOpen => Some("ABRIR LIVRO"),
            ConfirmationAction::TermoEncerramentoClose => Some("ENCERRAR LIVRO"),
            ConfirmationAction::BookStartOver => Some("RECOMEÇAR LIVRO"),
            ConfirmationAction::BookArchiveDisposal => Some("REGISTAR DISPOSIÇÃO"),
            ConfirmationAction::CmdTestSignature => Some("ASSINAR TESTE"),
            ConfirmationAction::UserBulkRoleChange => Some("ALTERAR PAPÉIS"),
            ConfirmationAction::LedgerReanchor => Some("RECONSTRUIR CADEIA"),
            ConfirmationAction::LedgerRestore => Some("RESTAURAR REGISTO"),
            ConfirmationAction::DataKeyRotation => Some("SUBSTITUIR CHAVE"),
            ConfirmationAction::DataCleanupExports => Some("ELIMINAR EXPORTAÇÕES"),
            ConfirmationAction::PrivacyErasureExecute => Some("APAGAR TITULAR"),
            _ => None,
        }
    }
}

/// One route's confirmation verdict. Every operator-authenticated route has exactly one.
#[derive(Debug, Clone, Copy, PartialEq, Eq)]
pub enum RouteGuard {
    /// The route's handler(s) must gate on one of these actions.
    Actions(&'static [ConfirmationAction]),
    /// Already gated by a hard-coded mechanism that predates this policy.
    PreExistingGate(&'static str),
    /// Deliberately not guarded, with the evidence for why.
    NotGuarded(&'static str),
}

/// The mathematical content of a [`RouteGuard`].
pub ghost enum GuardVerdict {
    Actions(Seq<ConfirmationAction>),
    PreExistingGate(Seq<char>),
    NotGuarded(Seq<char>),
}

impl View for RouteGuard {
    type V = GuardVerdict;

    open spec fn view(&self) -> GuardVerdict {
        match *self {
            RouteGuard::Actions(a) => GuardVerdict::Actions(a@),
            RouteGuard::PreExistingGate(r) => GuardVerdict::PreExistingGate(r@),
            RouteGuard::NotGuarded(r) => GuardVerdict::NotGuarded(r@),
        }
    }
}

/// The number of routes in the registry.
pub const ROUTE_GUARD_LEN: usize = 285;

/// Only the two entries of the CMD test signature's steps are registered under their paths.
pub proof fn lemma_cmd_test_signature_paths_are_unique(i: int)
    requires
        0 <= i < ROUTE_GUARD_LEN,
    ensures
        route_path(i) == "/v1/signature/cmd/test-signature/initiate"@ <==> i == 113,
        route_path(i) == "/v1/signature/cmd/test-signature/confirm"@ <==> i == 114,
{
    let ini = "/v1/signature/cmd/test-signature/initiate"@;
    let con = "/v1/signature/cmd/test-signature/confirm"@;
    reveal_strlit("/v1/acts");
    reveal_strlit("/v1/acts/{act_id}/documents/generated");
    reveal_strlit("/v1/acts/{id}");
    reveal_strlit("/v1/acts/{id}/advance");
    reveal_strlit("/v1/acts/{id}/archive");
    reveal_strlit("/v1/acts/{id}/body/preview");
    reveal_strlit("/v1/acts/{id}/compliance");
    reveal_strlit("/v1/acts/{id}/convening/dispatch");
    reveal_strlit("/v1/acts/{id}/document");
    reveal_strlit("/v1/acts/{id}/document/bundle");
    reveal_strlit("/v1/acts/{id}/document/generate");
    reveal_strlit("/v1/acts/{id}/document/office");
    reveal_strlit("/v1/acts/{id}/document/preview");
    reveal_strlit("/v1/acts/{id}/document/signed");
    reveal_strlit("/v1/acts/{id}/document/working-copy");
    reveal_strlit("/v1/acts/{id}/external-signing/envelopes");
    reveal_strlit("/v1/acts/{id}/follow-ups");
    reveal_strlit("/v1/acts/{id}/human-verification");
    reveal_strlit("/v1/acts/{id}/reopen");
    reveal_strlit("/v1/acts/{id}/revert");
    reveal_strlit("/v1/acts/{id}/seal");
    reveal_strlit("/v1/acts/{id}/signature");
    reveal_strlit("/v1/acts/{id}/signature/archive-timestamp/append");
    reveal_strlit("/v1/acts/{id}/signature/cc/sign");
    reveal_strlit("/v1/acts/{id}/signature/cmd/confirm");
    reveal_strlit("/v1/acts/{id}/signature/cmd/initiate");
    reveal_strlit("/v1/acts/{id}/signature/dss/attach");
    reveal_strlit("/v1/acts/{id}/signature/dss/collect-revocation");
    reveal_strlit("/v1/acts/{id}/signature/external-invites");
    reveal_strlit("/v1/acts/{id}/signature/external-invites/{invite_id}/revoke");
    reveal_strlit("/v1/acts/{id}/signature/local/pkcs12/sign");
    reveal_strlit("/v1/acts/{id}/signature/local/pkcs12/sign-stored");
    reveal_strlit("/v1/acts/{id}/signature/ltv/execute");
    reveal_strlit("/v1/acts/{id}/signature/ltv/renew");
    reveal_strlit("/v1/acts/{id}/signature/official/import");
    reveal_strlit("/v1/acts/{id}/signature/remote/{provider}/confirm");
    reveal_strlit("/v1/acts/{id}/signature/remote/{provider}/initiate");
    reveal_strlit("/v1/api-keys");
    reveal_strlit("/v1/api-keys/{id}");
    reveal_strlit("/v1/api-keys/{id}/rotate");
    reveal_strlit("/v1/auth/invites");
    reveal_strlit("/v1/backup");
    reveal_strlit("/v1/backup/recovery-drills");
    reveal_strlit("/v1/books");
    reveal_strlit("/v1/books/import");
    reveal_strlit("/v1/books/import/preflight");
    reveal_strlit("/v1/books/page");
    reveal_strlit("/v1/books/paper-import");
    reveal_strlit("/v1/books/paper-import/validate");
    reveal_strlit("/v1/books/paper-import/{id}");
    reveal_strlit("/v1/books/paper-import/{id}/bytes");
    reveal_strlit("/v1/books/paper-import/{id}/conversion-dossiers");
    reveal_strlit("/v1/books/paper-import/{id}/ocr-canonical-rehearsal");
    reveal_strlit("/v1/books/paper-import/{id}/ocr-drafts");
    reveal_strlit("/v1/books/paper-import/{id}/ocr-drafts/{draft_id}/canonical-draft");
    reveal_strlit("/v1/books/paper-import/{id}/ocr-drafts/{draft_id}/conversion-dossier");
    reveal_strlit("/v1/books/paper-import/{id}/ocr-drafts/{draft_id}/review");
    reveal_strlit("/v1/books/paper-import/{id}/ocr-status");
    reveal_strlit("/v1/books/paper-import/{id}/ocr/enqueue");
    reveal_strlit("/v1/books/paper-import/{id}/ocr/run");
    reveal_strlit("/v1/books/{id}");
    reveal_strlit("/v1/books/{id}/acts");
    reveal_strlit("/v1/books/{id}/archive/disposal");
    reveal_strlit("/v1/books/{id}/archive/local-dglab-interchange-manifest");
    reveal_strlit("/v1/books/{id}/archive/package");
    reveal_strlit("/v1/books/{id}/close");
    reveal_strlit("/v1/books/{id}/export");
    reveal_strlit("/v1/books/{id}/legal-hold");
    reveal_strlit("/v1/books/{id}/start-over");
    reveal_strlit("/v1/books/{id}/termo/abertura");
    reveal_strlit("/v1/books/{id}/termo/abertura/advance");
    reveal_strlit("/v1/books/{id}/termo/abertura/document");
    reveal_strlit("/v1/books/{id}/termo/abertura/open");
    reveal_strlit("/v1/books/{id}/termo/abertura/sign");
    reveal_strlit("/v1/books/{id}/termo/abertura/sign/pkcs12");
    reveal_strlit("/v1/books/{id}/termo/abertura/signatures/{slot_id}");
    reveal_strlit("/v1/books/{id}/termo/encerramento");
    reveal_strlit("/v1/books/{id}/termo/encerramento/advance");
    reveal_strlit("/v1/books/{id}/termo/encerramento/close");
    reveal_strlit("/v1/books/{id}/termo/encerramento/sign");
    reveal_strlit("/v1/books/{id}/termo/encerramento/sign/pkcs12");
    reveal_strlit("/v1/cae");
    reveal_strlit("/v1/cae/refresh");
    reveal_strlit("/v1/cae/sections");
    reveal_strlit("/v1/cae/updates");
    reveal_strlit("/v1/cae/{code}");
    reveal_strlit("/v1/cae/{code}/children");
    reveal_strlit("/v1/confirmation-policy");
    reveal_strlit("/v1/dashboard");
    reveal_strlit("/v1/data/cleanup");
    reveal_strlit("/v1/data/key-rotation");
    reveal_strlit("/v1/data/key-rotation/preflight");
    reveal_strlit("/v1/data/reset");
    reveal_strlit("/v1/data/start-over");
    reveal_strlit("/v1/data/status");
    reveal_strlit("/v1/delegations");
    reveal_strlit("/v1/delegations/{id}");
    reveal_strlit("/v1/delegations/{id}/resume");
    reveal_strlit("/v1/delegations/{id}/suspend");
    reveal_strlit("/v1/documents/generated/{document_id}");
    reveal_strlit("/v1/documents/generated/{document_id}/dispatch-evidence");
    reveal_strlit("/v1/documents/import");
    reveal_strlit("/v1/documents/import/validate");
    reveal_strlit("/v1/documents/imported");
    reveal_strlit("/v1/documents/imported/{id}");
    reveal_strlit("/v1/documents/imported/{id}/bytes");
    reveal_strlit("/v1/documents/imported/{id}/review");
    reveal_strlit("/v1/entities");
    reveal_strlit("/v1/entities/import-from-registry");
    reveal_strlit("/v1/entities/page");
    reveal_strlit("/v1/entities/{id}");
    reveal_strlit("/v1/entities/{id}/archive");
    reveal_strlit("/v1/entities/{id}/chronology");
    reveal_strlit("/v1/entities/{id}/registry");
    reveal_strlit("/v1/entities/{id}/registry/import");
    reveal_strlit("/v1/entities/{id}/unarchive");
    reveal_strlit("/v1/external-signing/envelopes/{id}");
    reveal_strlit("/v1/external-validator-reports");
    reveal_strlit("/v1/external-validator-reports/{case_id}/{validator_family}");
    reveal_strlit("/v1/external-validator-reports/{case_id}/{validator_family}/raw-report");
    reveal_strlit("/v1/follow-ups/{id}");
    reveal_strlit("/v1/follow-ups/{id}/complete");
    reveal_strlit("/v1/law");
    reveal_strlit("/v1/law/citations/resolve");
    reveal_strlit("/v1/law/corpus");
    reveal_strlit("/v1/law/corpus/search");
    reveal_strlit("/v1/law/corpus/{diploma}");
    reveal_strlit("/v1/law/corpus/{diploma}/{article}");
    reveal_strlit("/v1/law/{id}/fetch");
    reveal_strlit("/v1/law/{id}/pdf");
    reveal_strlit("/v1/ledger/archive/document");
    reveal_strlit("/v1/ledger/attestations/{seq}");
    reveal_strlit("/v1/ledger/events");
    reveal_strlit("/v1/ledger/events/page");
    reveal_strlit("/v1/ledger/integrity");
    reveal_strlit("/v1/ledger/recovery/reanchor");
    reveal_strlit("/v1/ledger/recovery/restore");
    reveal_strlit("/v1/ledger/recovery/restore/preflight");
    reveal_strlit("/v1/ledger/verify");
    reveal_strlit("/v1/me/preferences");
    reveal_strlit("/v1/notifications/triage");
    reveal_strlit("/v1/notifications/triage/{id}");
    reveal_strlit("/v1/pairing/codes");
    reveal_strlit("/v1/pairing/devices");
    reveal_strlit("/v1/pairing/devices/{device_id}");
    reveal_strlit("/v1/permissions");
    reveal_strlit("/v1/platform/env");
    reveal_strlit("/v1/platform/logs");
    reveal_strlit("/v1/platform/logs/forwarded");
    reveal_strlit("/v1/platform/services");
    reveal_strlit("/v1/platform/services/{id}/actions/{action}");
    reveal_strlit("/v1/privacy/breach-playbooks");
    reveal_strlit("/v1/privacy/breach-playbooks/{id}");
    reveal_strlit("/v1/privacy/dpia-template");
    reveal_strlit("/v1/privacy/dpias");
    reveal_strlit("/v1/privacy/dpias/{id}");
    reveal_strlit("/v1/privacy/dsr-requests/{id}");
    reveal_strlit("/v1/privacy/dsr-requests/{id}/complete");
    reveal_strlit("/v1/privacy/processors");
    reveal_strlit("/v1/privacy/processors/{id}");
    reveal_strlit("/v1/privacy/retention-candidate-resolutions");
    reveal_strlit("/v1/privacy/retention-due-candidates");
    reveal_strlit("/v1/privacy/retention-due-candidates/{candidate_id}/resolution");
    reveal_strlit("/v1/privacy/retention-executions");
    reveal_strlit("/v1/privacy/retention-executions/{id}/review-closure");
    reveal_strlit("/v1/privacy/retention-policies");
    reveal_strlit("/v1/privacy/retention-policies/dry-run");
    reveal_strlit("/v1/privacy/retention-policies/{id}");
    reveal_strlit("/v1/privacy/transfer-controls");
    reveal_strlit("/v1/privacy/transfer-controls/{id}");
    reveal_strlit("/v1/privacy/users/{id}/dsr-requests");
    reveal_strlit("/v1/privacy/users/{id}/export");
    reveal_strlit("/v1/privacy/users/{user_id}/dsr-requests/{request_id}/complete");
    reveal_strlit("/v1/privacy/users/{user_id}/dsr-requests/{request_id}/erasure/approve");
    reveal_strlit("/v1/privacy/users/{user_id}/dsr-requests/{request_id}/erasure/execute");
    reveal_strlit("/v1/privacy/users/{user_id}/dsr-requests/{request_id}/erasure/preflight");
    reveal_strlit("/v1/privacy/users/{user_id}/dsr-requests/{request_id}/rectification");
    reveal_strlit("/v1/privacy/users/{user_id}/dsr-requests/{request_id}/restriction");
    reveal_strlit("/v1/reauth/passkey/options");
    reveal_strlit("/v1/registry/lookup");
    reveal_strlit("/v1/roles");
    reveal_strlit("/v1/roles/{id}");
    reveal_strlit("/v1/roles/{id}/seeded-drift-reconciliation");
    reveal_strlit("/v1/scap/attributes");
    reveal_strlit("/v1/scap/providers");
    reveal_strlit("/v1/scap/sign");
    reveal_strlit("/v1/search");
    reveal_strlit("/v1/search/pause");
    reveal_strlit("/v1/search/rebuild");
    reveal_strlit("/v1/search/resume");
    reveal_strlit("/v1/search/settings");
    reveal_strlit("/v1/search/status");
    reveal_strlit("/v1/session/permissions");
    reveal_strlit("/v1/sessions");
    reveal_strlit("/v1/sessions/revoke-others");
    reveal_strlit("/v1/sessions/{session_id}");
    reveal_strlit("/v1/settings");
    reveal_strlit("/v1/settings/email/deliveries");
    reveal_strlit("/v1/settings/email/deliveries/{id}/resend");
    reveal_strlit("/v1/settings/email/password");
    reveal_strlit("/v1/settings/email/status");
    reveal_strlit("/v1/settings/email/test");
    reveal_strlit("/v1/signature/asic/inspect");
    reveal_strlit("/v1/signature/asic/sign");
    reveal_strlit("/v1/signature/cc/batch-sign");
    reveal_strlit("/v1/signature/cc/bridge/status");
    reveal_strlit("/v1/signature/cc/bridge/test");
    reveal_strlit("/v1/signature/cmd/test-signature/confirm");
    reveal_strlit("/v1/signature/cmd/test-signature/initiate");
    reveal_strlit("/v1/signature/cmd/test-signature/{test_id}/document");
    reveal_strlit("/v1/signature/pdf/validate");
    reveal_strlit("/v1/signature/pdf/validate/report");
    reveal_strlit("/v1/signature/provider-credentials");
    reveal_strlit("/v1/signature/provider-credentials/cmd/ama-certificate/inspect");
    reveal_strlit("/v1/signature/provider-credentials/status");
    reveal_strlit("/v1/signature/provider-credentials/{mode}/{provider_id}/entries");
    reveal_strlit("/v1/signature/provider-credentials/{mode}/{provider_id}/entries/reorder");
    reveal_strlit("/v1/signature/provider-credentials/{mode}/{provider_id}/entries/{entry_id}");
    reveal_strlit("/v1/signature/provider-credentials/{mode}/{provider_id}/entries/{entry_id}/probe");
    reveal_strlit("/v1/signature/providers");
    reveal_strlit("/v1/signature/remote/{provider}/batch-initiate");
    reveal_strlit("/v1/signature/xades/sign");
    reveal_strlit("/v1/signature/xades/validate");
    reveal_strlit("/v1/sync/handoff-preflight");
    reveal_strlit("/v1/templates");
    reveal_strlit("/v1/templates/body/preview");
    reveal_strlit("/v1/templates/document/preview");
    reveal_strlit("/v1/templates/document/preview/markdown");
    reveal_strlit("/v1/templates/import");
    reveal_strlit("/v1/templates/{id}");
    reveal_strlit("/v1/templates/{id}/export");
    reveal_strlit("/v1/templates/{id}/versions");
    reveal_strlit("/v1/templates/{id}/versions/{version_id}");
    reveal_strlit("/v1/templates/{id}/versions/{version_id}/restore");
    reveal_strlit("/v1/tenants");
    reveal_strlit("/v1/tenants/{tenant_id}");
    reveal_strlit("/v1/tenants/{tenant_id}/connector-jobs");
    reveal_strlit("/v1/tenants/{tenant_id}/connector-jobs/{job_id}");
    reveal_strlit("/v1/tenants/{tenant_id}/connector-jobs/{job_id}/cancel");
    reveal_strlit("/v1/tenants/{tenant_id}/connector-jobs/{job_id}/retry");
    reveal_strlit("/v1/tenants/{tenant_id}/connector-targets");
    reveal_strlit("/v1/tenants/{tenant_id}/connector-targets/{target_id}");
    reveal_strlit("/v1/tenants/{tenant_id}/connector-targets/{target_id}/probe");
    reveal_strlit("/v1/tenants/{tenant_id}/connector-targets/{target_id}/run");
    reveal_strlit("/v1/tenants/{tenant_id}/groups");
    reveal_strlit("/v1/tenants/{tenant_id}/groups/{group_id}");
    reveal_strlit("/v1/tenants/{tenant_id}/groups/{group_id}/dashboard");
    reveal_strlit("/v1/tenants/{tenant_id}/groups/{group_id}/entities/{entity_id}");
    reveal_strlit("/v1/tenants/{tenant_id}/groups/{group_id}/template-libraries");
    reveal_strlit("/v1/tenants/{tenant_id}/groups/{group_id}/template-libraries/{library_id}");
    reveal_strlit("/v1/tenants/{tenant_id}/groups/{group_id}/template-libraries/{library_id}/history");
    reveal_strlit("/v1/tenants/{tenant_id}/groups/{group_id}/template-libraries/{library_id}/revisions");
    reveal_strlit("/v1/tenants/{tenant_id}/groups/{group_id}/template-libraries/{library_id}/revisions/{revision}");
    reveal_strlit("/v1/tenants/{tenant_id}/repositories");
    reveal_strlit("/v1/tenants/{tenant_id}/repositories/{repository_id}");
    reveal_strlit("/v1/tenants/{tenant_id}/repositories/{repository_id}/objects");
    reveal_strlit("/v1/tenants/{tenant_id}/repositories/{repository_id}/objects/{object_id}/versions/{version}/ciphertext");
    reveal_strlit("/v1/tenants/{tenant_id}/repositories/{repository_id}/objects/{object_id}/versions/{version}/manifest");
    reveal_strlit("/v1/tenants/{tenant_id}/repositories/{repository_id}/objects/{object_id}/versions/{version}/readability-package");
    reveal_strlit("/v1/tenants/{tenant_id}/repositories/{repository_id}/uploads");
    reveal_strlit("/v1/tenants/{tenant_id}/repositories/{repository_id}/uploads/{upload_id}/ciphertext");
    reveal_strlit("/v1/tenants/{tenant_id}/repository-policy");
    reveal_strlit("/v1/trust/catalog");
    reveal_strlit("/v1/trust/providers/{id}");
    reveal_strlit("/v1/trust/refresh");
    reveal_strlit("/v1/trust/services/{id}");
    reveal_strlit("/v1/trust/status");
    reveal_strlit("/v1/trust/tsa");
    reveal_strlit("/v1/users");
    reveal_strlit("/v1/users/page");
    reveal_strlit("/v1/users/{id}");
    reveal_strlit("/v1/users/{id}/attestation-key");
    reveal_strlit("/v1/users/{id}/passkeys");
    reveal_strlit("/v1/users/{id}/passkeys/options");
    reveal_strlit("/v1/users/{id}/passkeys/{credential_id}");
    reveal_strlit("/v1/users/{id}/recovery");
    reveal_strlit("/v1/users/{id}/roles");
    reveal_strlit("/v1/users/{id}/secret");
    reveal_strlit("/v1/users/{id}/two-factor");
    reveal_strlit("/v1/users/{id}/two-factor/backup-codes");
    reveal_strlit("/v1/users/{id}/two-factor/totp");
    reveal_strlit("/v1/users/{id}/two-factor/totp/confirm");
    reveal_strlit("/v1/users/{id}/two-factor/totp/enrol");
    reveal_strlit("/v1/zk-repositories/shared-object-root");
    reveal_strlit("/v1/zk-repositories/storage-status");
    if i == 0 {
        assert(route_path(0).len() != ini.len());
        assert(route_path(0).len() != con.len());
    } else if i == 1 {
        assert(route_path(1).len() != ini.len());
        assert(route_path(1).len() != con.len());
    } else if i == 2 {
        assert(route_path(2).len() != ini.len());
        assert(route_path(2).len() != con.len());
    } else if i == 3 {
        assert(route_path(3).len() != ini.len());
        assert(route_path(3).len() != con.len());
    } else if i == 4 {
        assert(route_path(4).len() != ini.len());
        assert(route_path(4).len() != con.len());
    } else if i == 5 {
        assert(route_path(5).len() != ini.len());
        assert(route_path(5).len() != con.len());
    } else if i == 6 {
        assert(route_path(6).len() != ini.len());
        assert(route_path(6).len() != con.len());
    } else if i == 7 {
        assert(route_path(7).len() != ini.len());
        assert(route_path(7).len() != con.len());
    } else if i == 8 {
        assert(route_path(8).len() != ini.len());
        assert(route_path(8).len() != con.len());
    } else if i == 9 {
        assert(route_path(9).len() != ini.len());
        assert(route_path(9).len() != con.len());
    } else if i == 10 {
        assert(route_path(10).len() != ini.len());
        assert(route_path(10).len() != con.len());
    } else if i == 11 {
        assert(route_path(11).len() != ini.len());
        assert(route_path(11).len() != con.len());
    } else if i == 12 {
        assert(route_path(12)[4] != ini[4]);
        assert(route_path(12).len() != con.len());
    } else if i == 13 {
        assert(route_path(13).len() != ini.len());
        assert(route_path(13).len() != con.len());
    } else if i == 14 {
        assert(route_path(14).len() != ini.len());
        assert(route_path(14).len() != con.len());
    } else if i == 15 {
        assert(route_path(15).len() != ini.len());
        assert(route_path(15).len() != con.len());
    } else if i == 16 {
        assert(route_path(16).len() != ini.len());
        assert(route_path(16).len() != con.len());
    } else if i == 17 {
        assert(route_path(17).len() != ini.len());
        assert(route_path(17).len() != con.len());
    } else if i == 18 {
        assert(route_path(18).len() != ini.len());
        assert(route_path(18).len() != con.len());
    } else if i == 19 {
        assert(route_path(19).len() != ini.len());
        assert(route_path(19).len() != con.len());
    } else if i == 20 {
        assert(route_path(20).len() != ini.len());
        assert(route_path(20).len() != con.len());
    } else if i == 21 {
        assert(route_path(21).len() != ini.len());
        assert(route_path(21).len() != con.len());
    } else if i == 22 {
        assert(route_path(22)[4] != ini[4]);
        assert(route_path(22).len() != con.len());
    } else if i == 23 {
        assert(route_path(23).len() != ini.len());
        assert(route_path(23).len() != con.len());
    } else if i == 24 {
        assert(route_path(24).len() != ini.len());
        assert(route_path(24).len() != con.len());
    } else if i == 25 {
        assert(route_path(25).len() != ini.len());
        assert(route_path(25).len() != con.len());
    } else if i == 26 {
        assert(route_path(26).len() != ini.len());
        assert(route_path(26).len() != con.len());
    } else if i == 27 {
        assert(route_path(27).len() != ini.len());
        assert(route_path(27).len() != con.len());
    } else if i == 28 {
        assert(route_path(28).len() != ini.len());
        assert(route_path(28).len() != con.len());
    } else if i == 29 {
        assert(route_path(29).len() != ini.len());
        assert(route_path(29).len() != con.len());
    } else if i == 30 {
        assert(route_path(30).len() != ini.len());
        assert(route_path(30).len() != con.len());
    } else if i == 31 {
        assert(route_path(31).len() != ini.len());
        assert(route_path(31).len() != con.len());
    } else if i == 32 {
        assert(route_path(32).len() != ini.len());
        assert(route_path(32).len() != con.len());
    } else if i == 33 {
        assert(route_path(33).len() != ini.len());
        assert(route_path(33).len() != con.len());
    } else if i == 34 {
        assert(route_path(34).len() != ini.len());
        assert(route_path(34).len() != con.len());
    } else if i == 35 {
        assert(route_path(35).len() != ini.len());
        assert(route_path(35).len() != con.len());
    } else if i == 36 {
        assert(route_path(36).len() != ini.len());
        assert(route_path(36).len() != con.len());
    } else if i == 37 {
        assert(route_path(37).len() != ini.len());
        assert(route_path(37).len() != con.len());
    } else if i == 38 {
        assert(route_path(38).len() != ini.len());
        assert(route_path(38).len() != con.len());
    } else if i == 39 {
        assert(route_path(39).len() != ini.len());
        assert(route_path(39).len() != con.len());
    } else if i == 40 {
        assert(route_path(40)[4] != ini[4]);
        assert(route_path(40).len() != con.len());
    } else if i == 41 {
        assert(route_path(41).len() != ini.len());
        assert(route_path(41).len() != con.len());
    } else if i == 42 {
        assert(route_path(42).len() != ini.len());
        assert(route_path(42).len() != con.len());
    } else if i == 43 {
        assert(route_path(43).len() != ini.len());
        assert(route_path(43).len() != con.len());
    } else if i == 44 {
        assert(route_path(44).len() != ini.len());
        assert(route_path(44).len() != con.len());
    } else if i == 45 {
        assert(route_path(45)[4] != ini[4]);
        assert(route_path(45).len() != con.len());
    } else if i == 46 {
        assert(route_path(46).len() != ini.len());
        assert(route_path(46).len() != con.len());
    } else if i == 47 {
        assert(route_path(47).len() != ini.len());
        assert(route_path(47).len() != con.len());
    } else if i == 48 {
        assert(route_path(48).len() != ini.len());
        assert(route_path(48).len() != con.len());
    } else if i == 49 {
        assert(route_path(49).len() != ini.len());
        assert(route_path(49).len() != con.len());
    } else if i == 50 {
        assert(route_path(50).len() != ini.len());
        assert(route_path(50).len() != con.len());
    } else if i == 51 {
        assert(route_path(51).len() != ini.len());
        assert(route_path(51).len() != con.len());
    } else if i == 52 {
        assert(route_path(52).len() != ini.len());
        assert(route_path(52).len() != con.len());
    } else if i == 53 {
        assert(route_path(53).len() != ini.len());
        assert(route_path(53).len() != con.len());
    } else if i == 54 {
        assert(route_path(54).len() != ini.len());
        assert(route_path(54).len() != con.len());
    } else if i == 55 {
        assert(route_path(55).len() != ini.len());
        assert(route_path(55).len() != con.len());
    } else if i == 56 {
        assert(route_path(56).len() != ini.len());
        assert(route_path(56).len() != con.len());
    } else if i == 57 {
        assert(route_path(57).len() != ini.len());
        assert(route_path(57).len() != con.len());
    } else if i == 58 {
        assert(route_path(58).len() != ini.len());
        assert(route_path(58).len() != con.len());
    } else if i == 59 {
        assert(route_path(59).len() != ini.len());
        assert(route_path(59).len() != con.len());
    } else if i == 60 {
        assert(route_path(60).len() != ini.len());
        assert(route_path(60).len() != con.len());
    } else if i == 61 {
        assert(route_path(61).len() != ini.len());
        assert(route_path(61).len() != con.len());
    } else if i == 62 {
        assert(route_path(62).len() != ini.len());
        assert(route_path(62).len() != con.len());
    } else if i == 63 {
        assert(route_path(63).len() != ini.len());
        assert(route_path(63).len() != con.len());
    } else if i == 64 {
        assert(route_path(64).len() != ini.len());
        assert(route_path(64).len() != con.len());
    } else if i == 65 {
        assert(route_path(65).len() != ini.len());
        assert(route_path(65).len() != con.len());
    } else if i == 66 {
        assert(route_path(66).len() != ini.len());
        assert(route_path(66).len() != con.len());
    } else if i == 67 {
        assert(route_path(67).len() != ini.len());
        assert(route_path(67).len() != con.len());
    } else if i == 68 {
        assert(route_path(68).len() != ini.len());
        assert(route_path(68).len() != con.len());
    } else if i == 69 {
        assert(route_path(69).len() != ini.len());
        assert(route_path(69).len() != con.len());
    } else if i == 70 {
        assert(route_path(70).len() != ini.len());
        assert(route_path(70).len() != con.len());
    } else if i == 71 {
        assert(route_path(71).len() != ini.len());
        assert(route_path(71).len() != con.len());
    } else if i == 72 {
        assert(route_path(72).len() != ini.len());
        assert(route_path(72).len() != con.len());
    } else if i == 73 {
        assert(route_path(73).len() != ini.len());
        assert(route_path(73).len() != con.len());
    } else if i == 74 {
        assert(route_path(74).len() != ini.len());
        assert(route_path(74).len() != con.len());
    } else if i == 75 {
        assert(route_path(75).len() != ini.len());
        assert(route_path(75).len() != con.len());
    } else if i == 76 {
        assert(route_path(76).len() != ini.len());
        assert(route_path(76).len() != con.len());
    } else if i == 77 {
        assert(route_path(77).len() != ini.len());
        assert(route_path(77).len() != con.len());
    } else if i == 78 {
        assert(route_path(78).len() != ini.len());
        assert(route_path(78).len() != con.len());
    } else if i == 79 {
        assert(route_path(79).len() != ini.len());
        assert(route_path(79).len() != con.len());
    } else if i == 80 {
        assert(route_path(80).len() != ini.len());
        assert(route_path(80).len() != con.len());
    } else if i == 81 {
        assert(route_path(81).len() != ini.len());
        assert(route_path(81).len() != con.len());
    } else if i == 82 {
        assert(route_path(82).len() != ini.len());
        assert(route_path(82).len() != con.len());
    } else if i == 83 {
        assert(route_path(83).len() != ini.len());
        assert(route_path(83).len() != con.len());
    } else if i == 84 {
        assert(route_path(84).len() != ini.len());
        assert(route_path(84).len() != con.len());
    } else if i == 85 {
        assert(route_path(85).len() != ini.len());
        assert(route_path(85).len() != con.len());
    } else if i == 86 {
        assert(route_path(86).len() != ini.len());
        assert(route_path(86).len() != con.len());
    } else if i == 87 {
        assert(route_path(87).len() != ini.len());
        assert(route_path(87).len() != con.len());
    } else if i == 88 {
        assert(route_path(88).len() != ini.len());
        assert(route_path(88).len() != con.len());
    } else if i == 89 {
        assert(route_path(89).len() != ini.len());
        assert(route_path(89).len() != con.len());
    } else if i == 90 {
        assert(route_path(90).len() != ini.len());
        assert(route_path(90).len() != con.len());
    } else if i == 91 {
        assert(route_path(91).len() != ini.len());
        assert(route_path(91).len() != con.len());
    } else if i == 92 {
        assert(route_path(92).len() != ini.len());
        assert(route_path(92).len() != con.len());
    } else if i == 93 {
        assert(route_path(93).len() != ini.len());
        assert(route_path(93).len() != con.len());
    } else if i == 94 {
        assert(route_path(94).len() != ini.len());
        assert(route_path(94).len() != con.len());
    } else if i == 95 {
        assert(route_path(95).len() != ini.len());
        assert(route_path(95).len() != con.len());
    } else if i == 96 {
        assert(route_path(96).len() != ini.len());
        assert(route_path(96).len() != con.len());
    } else if i == 97 {
        assert(route_path(97).len() != ini.len());
        assert(route_path(97).len() != con.len());
    } else if i == 98 {
        assert(route_path(98).len() != ini.len());
        assert(route_path(98).len() != con.len());
    } else if i == 99 {
        assert(route_path(99).len() != ini.len());
        assert(route_path(99).len() != con.len());
    } else if i == 100 {
        assert(route_path(100).len() != ini.len());
        assert(route_path(100).len() != con.len());
    } else if i == 101 {
        assert(route_path(101).len() != ini.len());
        assert(route_path(101).len() != con.len());
    } else if i == 102 {
        assert(route_path(102).len() != ini.len());
        assert(route_path(102).len() != con.len());
    } else if i == 103 {
        assert(route_path(103).len() != ini.len());
        assert(route_path(103).len() != con.len());
    } else if i == 104 {
        assert(route_path(104).len() != ini.len());
        assert(route_path(104).len() != con.len());
    } else if i == 105 {
        assert(route_path(105).len() != ini.len());
        assert(route_path(105).len() != con.len());
    } else if i == 106 {
        assert(route_path(106).len() != ini.len());
        assert(route_path(106).len() != con.len());
    } else if i == 107 {
        assert(route_path(107).len() != ini.len());
        assert(route_path(107).len() != con.len());
    } else if i == 108 {
        assert(route_path(108).len() != ini.len());
        assert(route_path(108).len() != con.len());
    } else if i == 109 {
        assert(route_path(109).len() != ini.len());
        assert(route_path(109).len() != con.len());
    } else if i == 110 {
        assert(route_path(110).len() != ini.len());
        assert(route_path(110).len() != con.len());
    } else if i == 111 {
        assert(route_path(111).len() != ini.len());
        assert(route_path(111).len() != con.len());
    } else if i == 112 {
        assert(route_path(112).len() != ini.len());
        assert(route_path(112).len() != con.len());
    } else if i == 113 {
        assert(route_path(113).len() != con.len());
    } else if i == 114 {
        assert(route_path(114).len() != ini.len());
    } else if i == 115 {
        assert(route_path(115).len() != ini.len());
        assert(route_path(115).len() != con.len());
    } else if i == 116 {
        assert(route_path(116).len() != ini.len());
        assert(route_path(116).len() != con.len());
    } else if i == 117 {
        assert(route_path(117).len() != ini.len());
        assert(route_path(117).len() != con.len());
    } else if i == 118 {
        assert(route_path(118).len() != ini.len());
        assert(route_path(118).len() != con.len());
    } else if i == 119 {
        assert(route_path(119).len() != ini.len());
        assert(route_path(119).len() != con.len());
    } else if i == 120 {
        assert(route_path(120).len() != ini.len());
        assert(route_path(120).len() != con.len());
    } else if i == 121 {
        assert(route_path(121).len() != ini.len());
        assert(route_path(121).len() != con.len());
    } else if i == 122 {
        assert(route_path(122).len() != ini.len());
        assert(route_path(122).len() != con.len());
    } else if i == 123 {
        assert(route_path(123).len() != ini.len());
        assert(route_path(123).len() != con.len());
    } else if i == 124 {
        assert(route_path(124).len() != ini.len());
        assert(route_path(124).len() != con.len());
    } else if i == 125 {
        assert(route_path(125)[4] != ini[4]);
        assert(route_path(125).len() != con.len());
    } else if i == 126 {
        assert(route_path(126).len() != ini.len());
        assert(route_path(126).len() != con.len());
    } else if i == 127 {
        assert(route_path(127).len() != ini.len());
        assert(route_path(127)[4] != con[4]);
    } else if i == 128 {
        assert(route_path(128).len() != ini.len());
        assert(route_path(128).len() != con.len());
    } else if i == 129 {
        assert(route_path(129).len() != ini.len());
        assert(route_path(129)[4] != con[4]);
    } else if i == 130 {
        assert(route_path(130).len() != ini.len());
        assert(route_path(130).len() != con.len());
    } else if i == 131 {
        assert(route_path(131).len() != ini.len());
        assert(route_path(131).len() != con.len());
    } else if i == 132 {
        assert(route_path(132)[14] != ini[14]);
        assert(route_path(132).len() != con.len());
    } else if i == 133 {
        assert(route_path(133).len() != ini.len());
        assert(route_path(133).len() != con.len());
    } else if i == 134 {
        assert(route_path(134).len() != ini.len());
        assert(route_path(134).len() != con.len());
    } else if i == 135 {
        assert(route_path(135).len() != ini.len());
        assert(route_path(135).len() != con.len());
    } else if i == 136 {
        assert(route_path(136).len() != ini.len());
        assert(route_path(136).len() != con.len());
    } else if i == 137 {
        assert(route_path(137).len() != ini.len());
        assert(route_path(137).len() != con.len());
    } else if i == 138 {
        assert(route_path(138).len() != ini.len());
        assert(route_path(138).len() != con.len());
    } else if i == 139 {
        assert(route_path(139).len() != ini.len());
        assert(route_path(139).len() != con.len());
    } else if i == 140 {
        assert(route_path(140).len() != ini.len());
        assert(route_path(140).len() != con.len());
    } else if i == 141 {
        assert(route_path(141).len() != ini.len());
        assert(route_path(141).len() != con.len());
    } else if i == 142 {
        assert(route_path(142).len() != ini.len());
        assert(route_path(142).len() != con.len());
    } else if i == 143 {
        assert(route_path(143).len() != ini.len());
        assert(route_path(143).len() != con.len());
    } else if i == 144 {
        assert(route_path(144).len() != ini.len());
        assert(route_path(144)[4] != con[4]);
    } else if i == 145 {
        assert(route_path(145).len() != ini.len());
        assert(route_path(145).len() != con.len());
    } else if i == 146 {
        assert(route_path(146).len() != ini.len());
        assert(route_path(146).len() != con.len());
    } else if i == 147 {
        assert(route_path(147).len() != ini.len());
        assert(route_path(147).len() != con.len());
    } else if i == 148 {
        assert(route_path(148).len() != ini.len());
        assert(route_path(148).len() != con.len());
    } else if i == 149 {
        assert(route_path(149).len() != ini.len());
        assert(route_path(149).len() != con.len());
    } else if i == 150 {
        assert(route_path(150).len() != ini.len());
        assert(route_path(150).len() != con.len());
    } else if i == 151 {
        assert(route_path(151).len() != ini.len());
        assert(route_path(151).len() != con.len());
    } else if i == 152 {
        assert(route_path(152).len() != ini.len());
        assert(route_path(152).len() != con.len());
    } else if i == 153 {
        assert(route_path(153).len() != ini.len());
        assert(route_path(153).len() != con.len());
    } else if i == 154 {
        assert(route_path(154).len() != ini.len());
        assert(route_path(154).len() != con.len());
    } else if i == 155 {
        assert(route_path(155).len() != ini.len());
        assert(route_path(155).len() != con.len());
    } else if i == 156 {
        assert(route_path(156).len() != ini.len());
        assert(route_path(156).len() != con.len());
    } else if i == 157 {
        assert(route_path(157).len() != ini.len());
        assert(route_path(157).len() != con.len());
    } else if i == 158 {
        assert(route_path(158).len() != ini.len());
        assert(route_path(158).len() != con.len());
    } else if i == 159 {
        assert(route_path(159).len() != ini.len());
        assert(route_path(159).len() != con.len());
    } else if i == 160 {
        assert(route_path(160).len() != ini.len());
        assert(route_path(160).len() != con.len());
    } else if i == 161 {
        assert(route_path(161)[4] != ini[4]);
        assert(route_path(161).len() != con.len());
    } else if i == 162 {
        assert(route_path(162).len() != ini.len());
        assert(route_path(162).len() != con.len());
    } else if i == 163 {
        assert(route_path(163).len() != ini.len());
        assert(route_path(163).len() != con.len());
    } else if i == 164 {
        assert(route_path(164).len() != ini.len());
        assert(route_path(164).len() != con.len());
    } else if i == 165 {
        assert(route_path(165).len() != ini.len());
        assert(route_path(165).len() != con.len());
    } else if i == 166 {
        assert(route_path(166).len() != ini.len());
        assert(route_path(166).len() != con.len());
    } else if i == 167 {
        assert(route_path(167).len() != ini.len());
        assert(route_path(167).len() != con.len());
    } else if i == 168 {
        assert(route_path(168).len() != ini.len());
        assert(route_path(168).len() != con.len());
    } else if i == 169 {
        assert(route_path(169).len() != ini.len());
        assert(route_path(169).len() != con.len());
    } else if i == 170 {
        assert(route_path(170).len() != ini.len());
        assert(route_path(170).len() != con.len());
    } else if i == 171 {
        assert(route_path(171).len() != ini.len());
        assert(route_path(171).len() != con.len());
    } else if i == 172 {
        assert(route_path(172).len() != ini.len());
        assert(route_path(172).len() != con.len());
    } else if i == 173 {
        assert(route_path(173).len() != ini.len());
        assert(route_path(173).len() != con.len());
    } else if i == 174 {
        assert(route_path(174).len() != ini.len());
        assert(route_path(174).len() != con.len());
    } else if i == 175 {
        assert(route_path(175).len() != ini.len());
        assert(route_path(175).len() != con.len());
    } else if i == 176 {
        assert(route_path(176).len() != ini.len());
        assert(route_path(176).len() != con.len());
    } else if i == 177 {
        assert(route_path(177).len() != ini.len());
        assert(route_path(177).len() != con.len());
    } else if i == 178 {
        assert(route_path(178).len() != ini.len());
        assert(route_path(178).len() != con.len());
    } else if i == 179 {
        assert(route_path(179).len() != ini.len());
        assert(route_path(179).len() != con.len());
    } else if i == 180 {
        assert(route_path(180).len() != ini.len());
        assert(route_path(180).len() != con.len());
    } else if i == 181 {
        assert(route_path(181).len() != ini.len());
        assert(route_path(181).len() != con.len());
    } else if i == 182 {
        assert(route_path(182).len() != ini.len());
        assert(route_path(182).len() != con.len());
    } else if i == 183 {
        assert(route_path(183).len() != ini.len());
        assert(route_path(183).len() != con.len());
    } else if i == 184 {
        assert(route_path(184).len() != ini.len());
        assert(route_path(184).len() != con.len());
    } else if i == 185 {
        assert(route_path(185).len() != ini.len());
        assert(route_path(185).len() != con.len());
    } else if i == 186 {
        assert(route_path(186).len() != ini.len());
        assert(route_path(186).len() != con.len());
    } else if i == 187 {
        assert(route_path(187).len() != ini.len());
        assert(route_path(187).len() != con.len());
    } else if i == 188 {
        assert(route_path(188).len() != ini.len());
        assert(route_path(188).len() != con.len());
    } else if i == 189 {
        assert(route_path(189).len() != ini.len());
        assert(route_path(189).len() != con.len());
    } else if i == 190 {
        assert(route_path(190).len() != ini.len());
        assert(route_path(190).len() != con.len());
    } else if i == 191 {
        assert(route_path(191).len() != ini.len());
        assert(route_path(191).len() != con.len());
    } else if i == 192 {
        assert(route_path(192).len() != ini.len());
        assert(route_path(192).len() != con.len());
    } else if i == 193 {
        assert(route_path(193).len() != ini.len());
        assert(route_path(193).len() != con.len());
    } else if i == 194 {
        assert(route_path(194).len() != ini.len());
        assert(route_path(194).len() != con.len());
    } else if i == 195 {
        assert(route_path(195)[5] != ini[5]);
        assert(route_path(195).len() != con.len());
    } else if i == 196 {
        assert(route_path(196).len() != ini.len());
        assert(route_path(196).len() != con.len());
    } else if i == 197 {
        assert(route_path(197).len() != ini.len());
        assert(route_path(197).len() != con.len());
    } else if i == 198 {
        assert(route_path(198).len() != ini.len());
        assert(route_path(198).len() != con.len());
    } else if i == 199 {
        assert(route_path(199).len() != ini.len());
        assert(route_path(199).len() != con.len());
    } else if i == 200 {
        assert(route_path(200).len() != ini.len());
        assert(route_path(200).len() != con.len());
    } else if i == 201 {
        assert(route_path(201).len() != ini.len());
        assert(route_path(201).len() != con.len());
    } else if i == 202 {
        assert(route_path(202).len() != ini.len());
        assert(route_path(202).len() != con.len());
    } else if i == 203 {
        assert(route_path(203).len() != ini.len());
        assert(route_path(203).len() != con.len());
    } else if i == 204 {
        assert(route_path(204).len() != ini.len());
        assert(route_path(204).len() != con.len());
    } else if i == 205 {
        assert(route_path(205).len() != ini.len());
        assert(route_path(205).len() != con.len());
    } else if i == 206 {
        assert(route_path(206).len() != ini.len());
        assert(route_path(206).len() != con.len());
    } else if i == 207 {
        assert(route_path(207).len() != ini.len());
        assert(route_path(207).len() != con.len());
    } else if i == 208 {
        assert(route_path(208).len() != ini.len());
        assert(route_path(208).len() != con.len());
    } else if i == 209 {
        assert(route_path(209).len() != ini.len());
        assert(route_path(209).len() != con.len());
    } else if i == 210 {
        assert(route_path(210).len() != ini.len());
        assert(route_path(210).len() != con.len());
    } else if i == 211 {
        assert(route_path(211).len() != ini.len());
        assert(route_path(211).len() != con.len());
    } else if i == 212 {
        assert(route_path(212).len() != ini.len());
        assert(route_path(212).len() != con.len());
    } else if i == 213 {
        assert(route_path(213).len() != ini.len());
        assert(route_path(213).len() != con.len());
    } else if i == 214 {
        assert(route_path(214).len() != ini.len());
        assert(route_path(214).len() != con.len());
    } else if i == 215 {
        assert(route_path(215).len() != ini.len());
        assert(route_path(215).len() != con.len());
    } else if i == 216 {
        assert(route_path(216).len() != ini.len());
        assert(route_path(216).len() != con.len());
    } else if i == 217 {
        assert(route_path(217).len() != ini.len());
        assert(route_path(217).len() != con.len());
    } else if i == 218 {
        assert(route_path(218).len() != ini.len());
        assert(route_path(218).len() != con.len());
    } else if i == 219 {
        assert(route_path(219).len() != ini.len());
        assert(route_path(219).len() != con.len());
    } else if i == 220 {
        assert(route_path(220).len() != ini.len());
        assert(route_path(220).len() != con.len());
    } else if i == 221 {
        assert(route_path(221).len() != ini.len());
        assert(route_path(221).len() != con.len());
    } else if i == 222 {
        assert(route_path(222).len() != ini.len());
        assert(route_path(222).len() != con.len());
    } else if i == 223 {
        assert(route_path(223).len() != ini.len());
        assert(route_path(223).len() != con.len());
    } else if i == 224 {
        assert(route_path(224).len() != ini.len());
        assert(route_path(224).len() != con.len());
    } else if i == 225 {
        assert(route_path(225).len() != ini.len());
        assert(route_path(225).len() != con.len());
    } else if i == 226 {
        assert(route_path(226).len() != ini.len());
        assert(route_path(226).len() != con.len());
    } else if i == 227 {
        assert(route_path(227).len() != ini.len());
        assert(route_path(227).len() != con.len());
    } else if i == 228 {
        assert(route_path(228).len() != ini.len());
        assert(route_path(228).len() != con.len());
    } else if i == 229 {
        assert(route_path(229).len() != ini.len());
        assert(route_path(229).len() != con.len());
    } else if i == 230 {
        assert(route_path(230).len() != ini.len());
        assert(route_path(230).len() != con.len());
    } else if i == 231 {
        assert(route_path(231).len() != ini.len());
        assert(route_path(231).len() != con.len());
    } else if i == 232 {
        assert(route_path(232).len() != ini.len());
        assert(route_path(232).len() != con.len());
    } else if i == 233 {
        assert(route_path(233).len() != ini.len());
        assert(route_path(233).len() != con.len());
    } else if i == 234 {
        assert(route_path(234).len() != ini.len());
        assert(route_path(234).len() != con.len());
    } else if i == 235 {
        assert(route_path(235).len() != ini.len());
        assert(route_path(235).len() != con.len());
    } else if i == 236 {
        assert(route_path(236).len() != ini.len());
        assert(route_path(236).len() != con.len());
    } else if i == 237 {
        assert(route_path(237).len() != ini.len());
        assert(route_path(237).len() != con.len());
    } else if i == 238 {
        assert(route_path(238).len() != ini.len());
        assert(route_path(238).len() != con.len());
    } else if i == 239 {
        assert(route_path(239).len() != ini.len());
        assert(route_path(239).len() != con.len());
    } else if i == 240 {
        assert(route_path(240).len() != ini.len());
        assert(route_path(240).len() != con.len());
    } else if i == 241 {
        assert(route_path(241).len() != ini.len());
        assert(route_path(241).len() != con.len());
    } else if i == 242 {
        assert(route_path(242).len() != ini.len());
        assert(route_path(242).len() != con.len());
    } else if i == 243 {
        assert(route_path(243).len() != ini.len());
        assert(route_path(243).len() != con.len());
    } else if i == 244 {
        assert(route_path(244).len() != ini.len());
        assert(route_path(244).len() != con.len());
    } else if i == 245 {
        assert(route_path(245).len() != ini.len());
        assert(route_path(245).len() != con.len());
    } else if i == 246 {
        assert(route_path(246).len() != ini.len());
        assert(route_path(246).len() != con.len());
    } else if i == 247 {
        assert(route_path(247).len() != ini.len());
        assert(route_path(247).len() != con.len());
    } else if i == 248 {
        assert(route_path(248).len() != ini.len());
        assert(route_path(248).len() != con.len());
    } else if i == 249 {
        assert(route_path(249).len() != ini.len());
        assert(route_path(249).len() != con.len());
    } else if i == 250 {
        assert(route_path(250).len() != ini.len());
        assert(route_path(250).len() != con.len());
    } else if i == 251 {
        assert(route_path(251).len() != ini.len());
        assert(route_path(251).len() != con.len());
    } else if i == 252 {
        assert(route_path(252).len() != ini.len());
        assert(route_path(252).len() != con.len());
    } else if i == 253 {
        assert(route_path(253).len() != ini.len());
        assert(route_path(253).len() != con.len());
    } else if i == 254 {
        assert(route_path(254).len() != ini.len());
        assert(route_path(254).len() != con.len());
    } else if i == 255 {
        assert(route_path(255).len() != ini.len());
        assert(route_path(255).len() != con.len());
    } else if i == 256 {
        assert(route_path(256).len() != ini.len());
        assert(route_path(256).len() != con.len());
    } else if i == 257 {
        assert(route_path(257).len() != ini.len());
        assert(route_path(257).len() != con.len());
    } else if i == 258 {
        assert(route_path(258).len() != ini.len());
        assert(route_path(258).len() != con.len());
    } else if i == 259 {
        assert(route_path(259).len() != ini.len());
        assert(route_path(259).len() != con.len());
    } else if i == 260 {
        assert(route_path(260).len() != ini.len());
        assert(route_path(260).len() != con.len());
    } else if i == 261 {
        assert(route_path(261).len() != ini.len());
        assert(route_path(261).len() != con.len());
    } else if i == 262 {
        assert(route_path(262).len() != ini.len());
        assert(route_path(262).len() != con.len());
    } else if i == 263 {
        assert(route_path(263).len() != ini.len());
        assert(route_path(263).len() != con.len());
    } else if i == 264 {
        assert(route_path(264).len() != ini.len());
        assert(route_path(264).len() != con.len());
    } else if i == 265 {
        assert(route_path(265).len() != ini.len());
        assert(route_path(265).len() != con.len());
    } else if i == 266 {
        assert(route_path(266).len() != ini.len());
        assert(route_path(266).len() != con.len());
    } else if i == 267 {
        assert(route_path(267).len() != ini.len());
        assert(route_path(267).len() != con.len());
    } else if i == 268 {
        assert(route_path(268).len() != ini.len());
        assert(route_path(268).len() != con.len());
    } else if i == 269 {
        assert(route_path(269).len() != ini.len());
        assert(route_path(269).len() != con.len());
    } else if i == 270 {
        assert(route_path(270).len() != ini.len());
        assert(route_path(270).len() != con.len());
    } else if i == 271 {
        assert(route_path(271).len() != ini.len());
        assert(route_path(271).len() != con.len());
    } else if i == 272 {
        assert(route_path(272).len() != ini.len());
        assert(route_path(272).len() != con.len());
    } else if i == 273 {
        assert(route_path(273).len() != ini.len());
        assert(route_path(273).len() != con.len());
    } else if i == 274 {
        assert(route_path(274).len() != ini.len());
        assert(route_path(274).len() != con.len());
    } else if i == 275 {
        assert(route_path(275).len() != ini.len());
        assert(route_path(275).len() != con.len());
    } else if i == 276 {
        assert(route_path(276).len() != ini.len());
        assert(route_path(276).len() != con.len());
    } else if i == 277 {
        assert(route_path(277).len() != ini.len());
        assert(route_path(277).len() != con.len());
    } else if i == 278 {
        assert(route_path(278).len() != ini.len());
        assert(route_path(278).len() != con.len());
    } else if i == 279 {
        assert(route_path(279).len() != ini.len());
        assert(route_path(279).len() != con.len());
    } else if i == 280 {
        assert(route_path(280).len() != ini.len());
        assert(route_path(280).len() != con.len());
    } else if i == 281 {
        assert(route_path(281).len() != ini.len());
        assert(route_path(281).len() != con.len());
    } else if i == 282 {
        assert(route_path(282).len() != ini.len());
        assert(route_path(282).len() != con.len());
    } else if i == 283 {
        assert(route_path(283).len() != ini.len());
        assert(route_path(283).len() != con.len());
    } else if i == 284 {
        assert(route_path(284).len() != ini.len());
        assert(route_path(284).len() != con.len());
    }
}

/// The path of the registry entry at index `i`.
pub open spec fn route_path(i: int) -> Seq<char> {
    if i == 0 {
        "/v1/entities"@
    } else if i == 1 {
        "/v1/entities/page"@
    } else if i == 2 {
        "/v1/entities/{id}"@
    } else if i == 3 {
        "/v1/entities/{id}/archive"@
    } else if i == 4 {
        "/v1/entities/{id}/unarchive"@
    } else if i == 5 {
        "/v1/entities/import-from-registry"@
    } else if i == 6 {
        "/v1/entities/{id}/registry"@
    } else if i == 7 {
        "/v1/entities/{id}/registry/import"@
    } else if i == 8 {
        "/v1/entities/{id}/chronology"@
    } else if i == 9 {
        "/v1/tenants"@
    } else if i == 10 {
        "/v1/tenants/{tenant_id}"@
    } else if i == 11 {
        "/v1/tenants/{tenant_id}/groups"@
    } else if i == 12 {
        "/v1/tenants/{tenant_id}/groups/{group_id}"@
    } else if i == 13 {
        "/v1/tenants/{tenant_id}/groups/{group_id}/entities/{entity_id}"@
    } else if i == 14 {
        "/v1/tenants/{tenant_id}/groups/{group_id}/dashboard"@
    } else if i == 15 {
        "/v1/tenants/{tenant_id}/groups/{group_id}/template-libraries"@
    } else if i == 16 {
        "/v1/tenants/{tenant_id}/groups/{group_id}/template-libraries/{library_id}"@
    } else if i == 17 {
        "/v1/tenants/{tenant_id}/groups/{group_id}/template-libraries/{library_id}/revisions"@
    } else if i == 18 {
        "/v1/tenants/{tenant_id}/groups/{group_id}/template-libraries/{library_id}/history"@
    } else if i == 19 {
        "/v1/tenants/{tenant_id}/groups/{group_id}/template-libraries/{library_id}/revisions/{revision}"@
    } else if i == 20 {
        "/v1/zk-repositories/storage-status"@
    } else if i == 21 {
        "/v1/zk-repositories/shared-object-root"@
    } else if i == 22 {
        "/v1/tenants/{tenant_id}/repository-policy"@
    } else if i == 23 {
        "/v1/tenants/{tenant_id}/repositories"@
    } else if i == 24 {
        "/v1/tenants/{tenant_id}/repositories/{repository_id}"@
    } else if i == 25 {
        "/v1/tenants/{tenant_id}/repositories/{repository_id}/uploads"@
    } else if i == 26 {
        "/v1/tenants/{tenant_id}/repositories/{repository_id}/uploads/{upload_id}/ciphertext"@
    } else if i == 27 {
        "/v1/tenants/{tenant_id}/repositories/{repository_id}/objects"@
    } else if i == 28 {
        "/v1/tenants/{tenant_id}/repositories/{repository_id}/objects/{object_id}/versions/{version}/manifest"@
    } else if i == 29 {
        "/v1/tenants/{tenant_id}/repositories/{repository_id}/objects/{object_id}/versions/{version}/ciphertext"@
    } else if i == 30 {
        "/v1/tenants/{tenant_id}/repositories/{repository_id}/objects/{object_id}/versions/{version}/readability-package"@
    } else if i == 31 {
        "/v1/registry/lookup"@
    } else if i == 32 {
        "/v1/books"@
    } else if i == 33 {
        "/v1/books/page"@
    } else if i == 34 {
        "/v1/books/{id}"@
    } else if i == 35 {
        "/v1/books/{id}/close"@
    } else if i == 36 {
        "/v1/books/{id}/acts"@
    } else if i == 37 {
        "/v1/books/{id}/termo/abertura"@
    } else if i == 38 {
        "/v1/books/{id}/termo/abertura/advance"@
    } else if i == 39 {
        "/v1/books/{id}/termo/abertura/sign"@
    } else if i == 40 {
        "/v1/books/{id}/termo/abertura/sign/pkcs12"@
    } else if i == 41 {
        "/v1/books/{id}/termo/abertura/document"@
    } else if i == 42 {
        "/v1/books/{id}/termo/abertura/signatures/{slot_id}"@
    } else if i == 43 {
        "/v1/books/{id}/termo/abertura/open"@
    } else if i == 44 {
        "/v1/books/{id}/termo/encerramento"@
    } else if i == 45 {
        "/v1/books/{id}/termo/encerramento/advance"@
    } else if i == 46 {
        "/v1/books/{id}/termo/encerramento/sign"@
    } else if i == 47 {
        "/v1/books/{id}/termo/encerramento/sign/pkcs12"@
    } else if i == 48 {
        "/v1/books/{id}/termo/encerramento/close"@
    } else if i == 49 {
        "/v1/books/paper-import/validate"@
    } else if i == 50 {
        "/v1/books/paper-import"@
    } else if i == 51 {
        "/v1/books/paper-import/{id}"@
    } else if i == 52 {
        "/v1/books/paper-import/{id}/ocr/enqueue"@
    } else if i == 53 {
        "/v1/books/paper-import/{id}/ocr-status"@
    } else if i == 54 {
        "/v1/books/paper-import/{id}/ocr/run"@
    } else if i == 55 {
        "/v1/books/paper-import/{id}/ocr-drafts"@
    } else if i == 56 {
        "/v1/books/paper-import/{id}/ocr-drafts/{draft_id}/review"@
    } else if i == 57 {
        "/v1/books/paper-import/{id}/ocr-drafts/{draft_id}/canonical-draft"@
    } else if i == 58 {
        "/v1/books/paper-import/{id}/ocr-drafts/{draft_id}/conversion-dossier"@
    } else if i == 59 {
        "/v1/books/paper-import/{id}/conversion-dossiers"@
    } else if i == 60 {
        "/v1/books/paper-import/{id}/ocr-canonical-rehearsal"@
    } else if i == 61 {
        "/v1/books/paper-import/{id}/bytes"@
    } else if i == 62 {
        "/v1/books/{id}/legal-hold"@
    } else if i == 63 {
        "/v1/books/{id}/archive/package"@
    } else if i == 64 {
        "/v1/books/{id}/archive/local-dglab-interchange-manifest"@
    } else if i == 65 {
        "/v1/books/{id}/archive/disposal"@
    } else if i == 66 {
        "/v1/acts"@
    } else if i == 67 {
        "/v1/acts/{id}"@
    } else if i == 68 {
        "/v1/acts/{id}/advance"@
    } else if i == 69 {
        "/v1/acts/{id}/reopen"@
    } else if i == 70 {
        "/v1/acts/{id}/revert"@
    } else if i == 71 {
        "/v1/acts/{id}/human-verification"@
    } else if i == 72 {
        "/v1/acts/{id}/body/preview"@
    } else if i == 73 {
        "/v1/acts/{id}/compliance"@
    } else if i == 74 {
        "/v1/acts/{id}/seal"@
    } else if i == 75 {
        "/v1/acts/{id}/archive"@
    } else if i == 76 {
        "/v1/acts/{id}/follow-ups"@
    } else if i == 77 {
        "/v1/follow-ups/{id}"@
    } else if i == 78 {
        "/v1/follow-ups/{id}/complete"@
    } else if i == 79 {
        "/v1/acts/{id}/convening/dispatch"@
    } else if i == 80 {
        "/v1/acts/{id}/document/preview"@
    } else if i == 81 {
        "/v1/acts/{id}/document/generate"@
    } else if i == 82 {
        "/v1/acts/{act_id}/documents/generated"@
    } else if i == 83 {
        "/v1/documents/generated/{document_id}"@
    } else if i == 84 {
        "/v1/documents/generated/{document_id}/dispatch-evidence"@
    } else if i == 85 {
        "/v1/acts/{id}/document/working-copy"@
    } else if i == 86 {
        "/v1/acts/{id}/document/office"@
    } else if i == 87 {
        "/v1/acts/{id}/document"@
    } else if i == 88 {
        "/v1/acts/{id}/document/bundle"@
    } else if i == 89 {
        "/v1/documents/import"@
    } else if i == 90 {
        "/v1/documents/imported"@
    } else if i == 91 {
        "/v1/documents/imported/{id}"@
    } else if i == 92 {
        "/v1/documents/imported/{id}/review"@
    } else if i == 93 {
        "/v1/documents/imported/{id}/bytes"@
    } else if i == 94 {
        "/v1/documents/import/validate"@
    } else if i == 95 {
        "/v1/external-validator-reports"@
    } else if i == 96 {
        "/v1/external-validator-reports/{case_id}/{validator_family}"@
    } else if i == 97 {
        "/v1/external-validator-reports/{case_id}/{validator_family}/raw-report"@
    } else if i == 98 {
        "/v1/signature/pdf/validate"@
    } else if i == 99 {
        "/v1/signature/pdf/validate/report"@
    } else if i == 100 {
        "/v1/signature/asic/inspect"@
    } else if i == 101 {
        "/v1/signature/xades/sign"@
    } else if i == 102 {
        "/v1/signature/xades/validate"@
    } else if i == 103 {
        "/v1/signature/asic/sign"@
    } else if i == 104 {
        "/v1/scap/providers"@
    } else if i == 105 {
        "/v1/scap/attributes"@
    } else if i == 106 {
        "/v1/scap/sign"@
    } else if i == 107 {
        "/v1/acts/{id}/signature/cmd/initiate"@
    } else if i == 108 {
        "/v1/acts/{id}/signature/cmd/confirm"@
    } else if i == 109 {
        "/v1/acts/{id}/signature/cc/sign"@
    } else if i == 110 {
        "/v1/signature/cc/bridge/status"@
    } else if i == 111 {
        "/v1/signature/cc/bridge/test"@
    } else if i == 112 {
        "/v1/signature/cc/batch-sign"@
    } else if i == 113 {
        "/v1/signature/cmd/test-signature/initiate"@
    } else if i == 114 {
        "/v1/signature/cmd/test-signature/confirm"@
    } else if i == 115 {
        "/v1/signature/cmd/test-signature/{test_id}/document"@
    } else if i == 116 {
        "/v1/acts/{id}/signature/dss/attach"@
    } else if i == 117 {
        "/v1/acts/{id}/signature/dss/collect-revocation"@
    } else if i == 118 {
        "/v1/acts/{id}/signature/archive-timestamp/append"@
    } else if i == 119 {
        "/v1/acts/{id}/signature/ltv/execute"@
    } else if i == 120 {
        "/v1/acts/{id}/signature/ltv/renew"@
    } else if i == 121 {
        "/v1/acts/{id}/signature/remote/{provider}/initiate"@
    } else if i == 122 {
        "/v1/signature/remote/{provider}/batch-initiate"@
    } else if i == 123 {
        "/v1/acts/{id}/signature/remote/{provider}/confirm"@
    } else if i == 124 {
        "/v1/acts/{id}/signature/official/import"@
    } else if i == 125 {
        "/v1/acts/{id}/signature/local/pkcs12/sign"@
    } else if i == 126 {
        "/v1/acts/{id}/signature/local/pkcs12/sign-stored"@
    } else if i == 127 {
        "/v1/acts/{id}/signature/external-invites"@
    } else if i == 128 {
        "/v1/acts/{id}/signature/external-invites/{invite_id}/revoke"@
    } else if i == 129 {
        "/v1/acts/{id}/external-signing/envelopes"@
    } else if i == 130 {
        "/v1/external-signing/envelopes/{id}"@
    } else if i == 131 {
        "/v1/signature/providers"@
    } else if i == 132 {
        "/v1/signature/provider-credentials/status"@
    } else if i == 133 {
        "/v1/signature/provider-credentials"@
    } else if i == 134 {
        "/v1/signature/provider-credentials/cmd/ama-certificate/inspect"@
    } else if i == 135 {
        "/v1/signature/provider-credentials/{mode}/{provider_id}/entries"@
    } else if i == 136 {
        "/v1/signature/provider-credentials/{mode}/{provider_id}/entries/reorder"@
    } else if i == 137 {
        "/v1/signature/provider-credentials/{mode}/{provider_id}/entries/{entry_id}/probe"@
    } else if i == 138 {
        "/v1/signature/provider-credentials/{mode}/{provider_id}/entries/{entry_id}"@
    } else if i == 139 {
        "/v1/acts/{id}/signature"@
    } else if i == 140 {
        "/v1/acts/{id}/document/signed"@
    } else if i == 141 {
        "/v1/templates"@
    } else if i == 142 {
        "/v1/templates/{id}"@
    } else if i == 143 {
        "/v1/templates/{id}/versions"@
    } else if i == 144 {
        "/v1/templates/{id}/versions/{version_id}"@
    } else if i == 145 {
        "/v1/templates/{id}/versions/{version_id}/restore"@
    } else if i == 146 {
        "/v1/templates/{id}/export"@
    } else if i == 147 {
        "/v1/templates/import"@
    } else if i == 148 {
        "/v1/templates/body/preview"@
    } else if i == 149 {
        "/v1/templates/document/preview"@
    } else if i == 150 {
        "/v1/templates/document/preview/markdown"@
    } else if i == 151 {
        "/v1/ledger/events"@
    } else if i == 152 {
        "/v1/ledger/events/page"@
    } else if i == 153 {
        "/v1/ledger/archive/document"@
    } else if i == 154 {
        "/v1/ledger/verify"@
    } else if i == 155 {
        "/v1/ledger/integrity"@
    } else if i == 156 {
        "/v1/ledger/recovery/reanchor"@
    } else if i == 157 {
        "/v1/ledger/recovery/restore"@
    } else if i == 158 {
        "/v1/ledger/recovery/restore/preflight"@
    } else if i == 159 {
        "/v1/backup/recovery-drills"@
    } else if i == 160 {
        "/v1/sync/handoff-preflight"@
    } else if i == 161 {
        "/v1/tenants/{tenant_id}/connector-targets"@
    } else if i == 162 {
        "/v1/tenants/{tenant_id}/connector-targets/{target_id}"@
    } else if i == 163 {
        "/v1/tenants/{tenant_id}/connector-targets/{target_id}/probe"@
    } else if i == 164 {
        "/v1/tenants/{tenant_id}/connector-targets/{target_id}/run"@
    } else if i == 165 {
        "/v1/tenants/{tenant_id}/connector-jobs"@
    } else if i == 166 {
        "/v1/tenants/{tenant_id}/connector-jobs/{job_id}"@
    } else if i == 167 {
        "/v1/tenants/{tenant_id}/connector-jobs/{job_id}/cancel"@
    } else if i == 168 {
        "/v1/tenants/{tenant_id}/connector-jobs/{job_id}/retry"@
    } else if i == 169 {
        "/v1/books/{id}/export"@
    } else if i == 170 {
        "/v1/books/import/preflight"@
    } else if i == 171 {
        "/v1/books/import"@
    } else if i == 172 {
        "/v1/books/{id}/start-over"@
    } else if i == 173 {
        "/v1/data/reset"@
    } else if i == 174 {
        "/v1/data/status"@
    } else if i == 175 {
        "/v1/data/cleanup"@
    } else if i == 176 {
        "/v1/data/key-rotation"@
    } else if i == 177 {
        "/v1/data/key-rotation/preflight"@
    } else if i == 178 {
        "/v1/data/start-over"@
    } else if i == 179 {
        "/v1/dashboard"@
    } else if i == 180 {
        "/v1/search"@
    } else if i == 181 {
        "/v1/search/status"@
    } else if i == 182 {
        "/v1/search/rebuild"@
    } else if i == 183 {
        "/v1/search/pause"@
    } else if i == 184 {
        "/v1/search/resume"@
    } else if i == 185 {
        "/v1/notifications/triage"@
    } else if i == 186 {
        "/v1/notifications/triage/{id}"@
    } else if i == 187 {
        "/v1/me/preferences"@
    } else if i == 188 {
        "/v1/backup"@
    } else if i == 189 {
        "/v1/settings"@
    } else if i == 190 {
        "/v1/search/settings"@
    } else if i == 191 {
        "/v1/settings/email/status"@
    } else if i == 192 {
        "/v1/settings/email/password"@
    } else if i == 193 {
        "/v1/settings/email/test"@
    } else if i == 194 {
        "/v1/settings/email/deliveries"@
    } else if i == 195 {
        "/v1/settings/email/deliveries/{id}/resend"@
    } else if i == 196 {
        "/v1/platform/services"@
    } else if i == 197 {
        "/v1/platform/env"@
    } else if i == 198 {
        "/v1/platform/logs"@
    } else if i == 199 {
        "/v1/platform/logs/forwarded"@
    } else if i == 200 {
        "/v1/platform/services/{id}/actions/{action}"@
    } else if i == 201 {
        "/v1/cae"@
    } else if i == 202 {
        "/v1/cae/refresh"@
    } else if i == 203 {
        "/v1/cae/updates"@
    } else if i == 204 {
        "/v1/cae/sections"@
    } else if i == 205 {
        "/v1/cae/{code}"@
    } else if i == 206 {
        "/v1/cae/{code}/children"@
    } else if i == 207 {
        "/v1/trust/status"@
    } else if i == 208 {
        "/v1/trust/refresh"@
    } else if i == 209 {
        "/v1/trust/catalog"@
    } else if i == 210 {
        "/v1/trust/tsa"@
    } else if i == 211 {
        "/v1/trust/providers/{id}"@
    } else if i == 212 {
        "/v1/trust/services/{id}"@
    } else if i == 213 {
        "/v1/law"@
    } else if i == 214 {
        "/v1/law/citations/resolve"@
    } else if i == 215 {
        "/v1/law/corpus"@
    } else if i == 216 {
        "/v1/law/corpus/search"@
    } else if i == 217 {
        "/v1/law/corpus/{diploma}"@
    } else if i == 218 {
        "/v1/law/corpus/{diploma}/{article}"@
    } else if i == 219 {
        "/v1/law/{id}/fetch"@
    } else if i == 220 {
        "/v1/law/{id}/pdf"@
    } else if i == 221 {
        "/v1/users"@
    } else if i == 222 {
        "/v1/users/page"@
    } else if i == 223 {
        "/v1/users/{id}"@
    } else if i == 224 {
        "/v1/users/{id}/secret"@
    } else if i == 225 {
        "/v1/users/{id}/attestation-key"@
    } else if i == 226 {
        "/v1/users/{id}/recovery"@
    } else if i == 227 {
        "/v1/users/{id}/two-factor"@
    } else if i == 228 {
        "/v1/users/{id}/two-factor/totp/enrol"@
    } else if i == 229 {
        "/v1/users/{id}/two-factor/totp/confirm"@
    } else if i == 230 {
        "/v1/users/{id}/two-factor/totp"@
    } else if i == 231 {
        "/v1/users/{id}/two-factor/backup-codes"@
    } else if i == 232 {
        "/v1/users/{id}/passkeys"@
    } else if i == 233 {
        "/v1/users/{id}/passkeys/options"@
    } else if i == 234 {
        "/v1/users/{id}/passkeys/{credential_id}"@
    } else if i == 235 {
        "/v1/reauth/passkey/options"@
    } else if i == 236 {
        "/v1/privacy/users/{id}/export"@
    } else if i == 237 {
        "/v1/privacy/users/{id}/dsr-requests"@
    } else if i == 238 {
        "/v1/privacy/users/{user_id}/dsr-requests/{request_id}/complete"@
    } else if i == 239 {
        "/v1/privacy/users/{user_id}/dsr-requests/{request_id}/erasure/preflight"@
    } else if i == 240 {
        "/v1/privacy/users/{user_id}/dsr-requests/{request_id}/erasure/approve"@
    } else if i == 241 {
        "/v1/privacy/users/{user_id}/dsr-requests/{request_id}/erasure/execute"@
    } else if i == 242 {
        "/v1/privacy/users/{user_id}/dsr-requests/{request_id}/rectification"@
    } else if i == 243 {
        "/v1/privacy/users/{user_id}/dsr-requests/{request_id}/restriction"@
    } else if i == 244 {
        "/v1/privacy/dsr-requests/{id}"@
    } else if i == 245 {
        "/v1/privacy/dsr-requests/{id}/complete"@
    } else if i == 246 {
        "/v1/privacy/processors"@
    } else if i == 247 {
        "/v1/privacy/processors/{id}"@
    } else if i == 248 {
        "/v1/privacy/dpia-template"@
    } else if i == 249 {
        "/v1/privacy/dpias"@
    } else if i == 250 {
        "/v1/privacy/dpias/{id}"@
    } else if i == 251 {
        "/v1/privacy/breach-playbooks"@
    } else if i == 252 {
        "/v1/privacy/breach-playbooks/{id}"@
    } else if i == 253 {
        "/v1/privacy/transfer-controls"@
    } else if i == 254 {
        "/v1/privacy/transfer-controls/{id}"@
    } else if i == 255 {
        "/v1/privacy/retention-policies"@
    } else if i == 256 {
        "/v1/privacy/retention-policies/dry-run"@
    } else if i == 257 {
        "/v1/privacy/retention-due-candidates"@
    } else if i == 258 {
        "/v1/privacy/retention-due-candidates/{candidate_id}/resolution"@
    } else if i == 259 {
        "/v1/privacy/retention-candidate-resolutions"@
    } else if i == 260 {
        "/v1/privacy/retention-executions"@
    } else if i == 261 {
        "/v1/privacy/retention-executions/{id}/review-closure"@
    } else if i == 262 {
        "/v1/privacy/retention-policies/{id}"@
    } else if i == 263 {
        "/v1/api-keys"@
    } else if i == 264 {
        "/v1/api-keys/{id}"@
    } else if i == 265 {
        "/v1/api-keys/{id}/rotate"@
    } else if i == 266 {
        "/v1/ledger/attestations/{seq}"@
    } else if i == 267 {
        "/v1/roles"@
    } else if i == 268 {
        "/v1/roles/{id}"@
    } else if i == 269 {
        "/v1/roles/{id}/seeded-drift-reconciliation"@
    } else if i == 270 {
        "/v1/permissions"@
    } else if i == 271 {
        "/v1/confirmation-policy"@
    } else if i == 272 {
        "/v1/users/{id}/roles"@
    } else if i == 273 {
        "/v1/delegations"@
    } else if i == 274 {
        "/v1/delegations/{id}"@
    } else if i == 275 {
        "/v1/delegations/{id}/suspend"@
    } else if i == 276 {
        "/v1/delegations/{id}/resume"@
    } else if i == 277 {
        "/v1/session/permissions"@
    } else if i == 278 {
        "/v1/sessions"@
    } else if i == 279 {
        "/v1/sessions/{session_id}"@
    } else if i == 280 {
        "/v1/sessions/revoke-others"@
    } else if i == 281 {
        "/v1/auth/invites"@
    } else if i == 282 {
        "/v1/pairing/codes"@
    } else if i == 283 {
        "/v1/pairing/devices"@
    } else if i == 284 {
        "/v1/pairing/devices/{device_id}"@
    } else {
        Seq::empty()
    }
}

/// The verdict of the registry entry at index `i`.
pub open spec fn route_verdict(i: int) -> GuardVerdict {
    if i == 0 {
        GuardVerdict::NotGuarded("Creates a new record; nothing existing is altered or removed."@)
    } else if i == 1 {
        GuardVerdict::NotGuarded("Read-only: returns data and mutates no state, so there is nothing to confirm."@)
    } else if i == 2 {
        GuardVerdict::NotGuarded("Edits mutable draft state and is refused once the record is frozen."@)
    } else if i == 3 {
        GuardVerdict::Actions(seq![ConfirmationAction::EntityArchive])
    } else if i == 4 {
        GuardVerdict::NotGuarded("Returns an entity to active authorship. Granting the ability to start work back is not the dangerous direction, and it is separately ledgered."@)
    } else if i == 5 {
        GuardVerdict::NotGuarded("Creates a new record; nothing existing is altered or removed."@)
    } else if i == 6 {
        GuardVerdict::NotGuarded("Accepts one backend-owned auto-update attempt carrying only worker control metadata."@)
    } else if i == 7 {
        GuardVerdict::NotGuarded("Creates a new record; nothing existing is altered or removed."@)
    } else if i == 8 {
        GuardVerdict::NotGuarded("Read-only: returns data and mutates no state, so there is nothing to confirm."@)
    } else if i == 9 {
        GuardVerdict::NotGuarded("Creates a new record; nothing existing is altered or removed."@)
    } else if i == 10 {
        GuardVerdict::NotGuarded("Read-only: returns data and mutates no state, so there is nothing to confirm."@)
    } else if i == 11 {
        GuardVerdict::NotGuarded("Creates a new record; nothing existing is altered or removed."@)
    } else if i == 12 {
        GuardVerdict::Actions(seq![ConfirmationAction::GroupArchive])
    } else if i == 13 {
        GuardVerdict::Actions(seq![ConfirmationAction::GroupEntityRemove])
    } else if i == 14 {
        GuardVerdict::NotGuarded("Read-only: returns data and mutates no state, so there is nothing to confirm."@)
    } else if i == 15 {
        GuardVerdict::NotGuarded("Creates a new record; nothing existing is altered or removed."@)
    } else if i == 16 {
        GuardVerdict::Actions(seq![ConfirmationAction::TemplateLibraryArchive])
    } else if i == 17 {
        GuardVerdict::NotGuarded("Creates a new record; nothing existing is altered or removed."@)
    } else if i == 18 {
        GuardVerdict::NotGuarded("Read-only: returns data and mutates no state, so there is nothing to confirm."@)
    } else if i == 19 {
        GuardVerdict::NotGuarded("Read-only: returns data and mutates no state, so there is nothing to confirm."@)
    } else if i == 20 {
        GuardVerdict::NotGuarded("Read-only: returns data and mutates no state, so there is nothing to confirm."@)
    } else if i == 21 {
        GuardVerdict::NotGuarded("Declares or clears the shared object root path; stored objects are untouched."@)
    } else if i == 22 {
        GuardVerdict::Actions(seq![ConfirmationAction::RepositoryPolicyDelete])
    } else if i == 23 {
        GuardVerdict::NotGuarded("Creates a new record; nothing existing is altered or removed."@)
    } else if i == 24 {
        GuardVerdict::Actions(seq![ConfirmationAction::RepositoryDelete])
    } else if i == 25 {
        GuardVerdict::NotGuarded("Creates a new record; nothing existing is altered or removed."@)
    } else if i == 26 {
        GuardVerdict::NotGuarded("Uploads ciphertext for a staged upload; object versions are immutable and never replaced."@)
    } else if i == 27 {
        GuardVerdict::NotGuarded("Read-only: returns data and mutates no state, so there is nothing to confirm."@)
    } else if i == 28 {
        GuardVerdict::NotGuarded("Read-only: returns data and mutates no state, so there is nothing to confirm."@)
    } else if i == 29 {
        GuardVerdict::NotGuarded("Read-only: returns data and mutates no state, so there is nothing to confirm."@)
    } else if i == 30 {
        GuardVerdict::PreExistingGate("Already `require_step_up` in `zk_repository::create_readability_package` (annotated in `ROUTE_CLASSIFICATION`): producing readable plaintext from a zero-knowledge repository is gated by the operator's own credential at the call site. Folding it into the policy would let an operator configuration lower an existing hard-coded gate."@)
    } else if i == 31 {
        GuardVerdict::NotGuarded("Read-only preview/validation; persists nothing."@)
    } else if i == 32 {
        GuardVerdict::NotGuarded("Creates a new record; nothing existing is altered or removed."@)
    } else if i == 33 {
        GuardVerdict::NotGuarded("Read-only: returns data and mutates no state, so there is nothing to confirm."@)
    } else if i == 34 {
        GuardVerdict::NotGuarded("Replaces or clears the book's document-layout override only — no evidentiary state, no lifecycle transition."@)
    } else if i == 35 {
        GuardVerdict::Actions(seq![ConfirmationAction::BookClose])
    } else if i == 36 {
        GuardVerdict::NotGuarded("Read-only: returns data and mutates no state, so there is nothing to confirm."@)
    } else if i == 37 {
        GuardVerdict::NotGuarded("Edits mutable draft state and is refused once the record is frozen."@)
    } else if i == 38 {
        GuardVerdict::Actions(seq![ConfirmationAction::TermoAberturaAdvance])
    } else if i == 39 {
        GuardVerdict::NotGuarded("Creates a new record; nothing existing is altered or removed."@)
    } else if i == 40 {
        GuardVerdict::NotGuarded("The PFX passphrase is a per-use credential proof for this exact slot signature."@)
    } else if i == 41 {
        GuardVerdict::NotGuarded("Read-only: returns data and mutates no state, so there is nothing to confirm."@)
    } else if i == 42 {
        GuardVerdict::NotGuarded("Read-only: returns data and mutates no state, so there is nothing to confirm."@)
    } else if i == 43 {
        GuardVerdict::Actions(seq![ConfirmationAction::TermoAberturaOpen])
    } else if i == 44 {
        GuardVerdict::NotGuarded("Edits mutable draft state and is refused once the record is frozen."@)
    } else if i == 45 {
        GuardVerdict::Actions(seq![ConfirmationAction::TermoEncerramentoAdvance])
    } else if i == 46 {
        GuardVerdict::NotGuarded("Creates a new record; nothing existing is altered or removed."@)
    } else if i == 47 {
        GuardVerdict::NotGuarded("The PFX passphrase is a per-use credential proof for this exact slot signature."@)
    } else if i == 48 {
        GuardVerdict::Actions(seq![ConfirmationAction::TermoEncerramentoClose])
    } else if i == 49 {
        GuardVerdict::NotGuarded("Read-only preview/validation; persists nothing."@)
    } else if i == 50 {
        GuardVerdict::NotGuarded("Creates a new record; nothing existing is altered or removed."@)
    } else if i == 51 {
        GuardVerdict::NotGuarded("Read-only: returns data and mutates no state, so there is nothing to confirm."@)
    } else if i == 52 {
        GuardVerdict::NotGuarded("Creates a new record; nothing existing is altered or removed."@)
    } else if i == 53 {
        GuardVerdict::NotGuarded("Updates only the OCR lifecycle marker on a preserved paper-book import. Metadata-only; stores no OCR output."@)
    } else if i == 54 {
        GuardVerdict::NotGuarded("Stores bounded stdout as a non-authoritative draft; creates no canonical text."@)
    } else if i == 55 {
        GuardVerdict::NotGuarded("Creates a new record; nothing existing is altered or removed."@)
    } else if i == 56 {
        GuardVerdict::NotGuarded("Metadata-only review state on a non-authoritative OCR draft."@)
    } else if i == 57 {
        GuardVerdict::NotGuarded("Creates a new record; nothing existing is altered or removed."@)
    } else if i == 58 {
        GuardVerdict::NotGuarded("Creates a new record; nothing existing is altered or removed."@)
    } else if i == 59 {
        GuardVerdict::NotGuarded("Read-only: returns data and mutates no state, so there is nothing to confirm."@)
    } else if i == 60 {
        GuardVerdict::NotGuarded("Read-only: returns data and mutates no state, so there is nothing to confirm."@)
    } else if i == 61 {
        GuardVerdict::NotGuarded("Read-only: returns data and mutates no state, so there is nothing to confirm."@)
    } else if i == 62 {
        GuardVerdict::Actions(seq![ConfirmationAction::LegalHoldRelease])
    } else if i == 63 {
        GuardVerdict::NotGuarded("Read-only: returns data and mutates no state, so there is nothing to confirm."@)
    } else if i == 64 {
        GuardVerdict::NotGuarded("Read-only: returns data and mutates no state, so there is nothing to confirm."@)
    } else if i == 65 {
        GuardVerdict::Actions(seq![ConfirmationAction::BookArchiveDisposal])
    } else if i == 66 {
        GuardVerdict::NotGuarded("Creates a new record; nothing existing is altered or removed."@)
    } else if i == 67 {
        GuardVerdict::NotGuarded("Edits mutable draft state and is refused once the record is frozen."@)
    } else if i == 68 {
        GuardVerdict::NotGuarded("One forward pre-signature lifecycle step, reversible by `acts/{id}/revert`."@)
    } else if i == 69 {
        GuardVerdict::Actions(seq![ConfirmationAction::ActReopen])
    } else if i == 70 {
        GuardVerdict::Actions(seq![ConfirmationAction::ActRevert])
    } else if i == 71 {
        GuardVerdict::NotGuarded("Records accept/reject of human review over AI-assisted draft text."@)
    } else if i == 72 {
        GuardVerdict::NotGuarded("Read-only preview/validation; persists nothing."@)
    } else if i == 73 {
        GuardVerdict::NotGuarded("Read-only: returns data and mutates no state, so there is nothing to confirm."@)
    } else if i == 74 {
        GuardVerdict::Actions(seq![ConfirmationAction::ActSeal])
    } else if i == 75 {
        GuardVerdict::Actions(seq![ConfirmationAction::ActArchive])
    } else if i == 76 {
        GuardVerdict::NotGuarded("Creates a new record; nothing existing is altered or removed."@)
    } else if i == 77 {
        GuardVerdict::NotGuarded("Edits mutable draft state and is refused once the record is frozen."@)
    } else if i == 78 {
        GuardVerdict::NotGuarded("Marks an open follow-up row completed. Single-subject workflow bookkeeping; no evidentiary or authority consequence."@)
    } else if i == 79 {
        GuardVerdict::NotGuarded("Records that a convening notice was dispatched — an append-only evidentiary assertion that removes nothing."@)
    } else if i == 80 {
        GuardVerdict::NotGuarded("Read-only: returns data and mutates no state, so there is nothing to confirm."@)
    } else if i == 81 {
        GuardVerdict::NotGuarded("Creates a new record; nothing existing is altered or removed."@)
    } else if i == 82 {
        GuardVerdict::NotGuarded("Read-only: returns data and mutates no state, so there is nothing to confirm."@)
    } else if i == 83 {
        GuardVerdict::NotGuarded("Read-only: returns data and mutates no state, so there is nothing to confirm."@)
    } else if i == 84 {
        GuardVerdict::NotGuarded("Records metadata-only dispatch evidence; sends nothing and mutates no sealed bytes."@)
    } else if i == 85 {
        GuardVerdict::NotGuarded("Read-only: returns data and mutates no state, so there is nothing to confirm."@)
    } else if i == 86 {
        GuardVerdict::NotGuarded("Read-only: returns data and mutates no state, so there is nothing to confirm."@)
    } else if i == 87 {
        GuardVerdict::NotGuarded("Read-only: returns data and mutates no state, so there is nothing to confirm."@)
    } else if i == 88 {
        GuardVerdict::NotGuarded("Read-only: returns data and mutates no state, so there is nothing to confirm."@)
    } else if i == 89 {
        GuardVerdict::NotGuarded("Creates a new record; nothing existing is altered or removed."@)
    } else if i == 90 {
        GuardVerdict::NotGuarded("Read-only: returns data and mutates no state, so there is nothing to confirm."@)
    } else if i == 91 {
        GuardVerdict::NotGuarded("Read-only: returns data and mutates no state, so there is nothing to confirm."@)
    } else if i == 92 {
        GuardVerdict::NotGuarded("Metadata-only review-state transition; never touches canonical or signed rows."@)
    } else if i == 93 {
        GuardVerdict::NotGuarded("Read-only: returns data and mutates no state, so there is nothing to confirm."@)
    } else if i == 94 {
        GuardVerdict::NotGuarded("Read-only preview/validation; persists nothing."@)
    } else if i == 95 {
        GuardVerdict::NotGuarded("Accepts operator-supplied technical metadata only."@)
    } else if i == 96 {
        GuardVerdict::NotGuarded("Read-only: returns data and mutates no state, so there is nothing to confirm."@)
    } else if i == 97 {
        GuardVerdict::NotGuarded("Read-only: returns data and mutates no state, so there is nothing to confirm."@)
    } else if i == 98 {
        GuardVerdict::NotGuarded("Read-only preview/validation; persists nothing."@)
    } else if i == 99 {
        GuardVerdict::NotGuarded("Read-only preview/validation; persists nothing."@)
    } else if i == 100 {
        GuardVerdict::NotGuarded("Read-only preview/validation; persists nothing."@)
    } else if i == 101 {
        GuardVerdict::NotGuarded("Signs caller-supplied content and returns it; nothing is persisted."@)
    } else if i == 102 {
        GuardVerdict::NotGuarded("Read-only preview/validation; persists nothing."@)
    } else if i == 103 {
        GuardVerdict::NotGuarded("Signs caller-supplied content and returns it; nothing is persisted."@)
    } else if i == 104 {
        GuardVerdict::NotGuarded("Creates a new record; nothing existing is altered or removed."@)
    } else if i == 105 {
        GuardVerdict::NotGuarded("Creates a new record; nothing existing is altered or removed."@)
    } else if i == 106 {
        GuardVerdict::NotGuarded("Signs caller-supplied content and returns it; nothing is persisted."@)
    } else if i == 107 {
        GuardVerdict::NotGuarded("Creates a new record; nothing existing is altered or removed."@)
    } else if i == 108 {
        GuardVerdict::NotGuarded("The signer proves possession out of band at the moment of signing (CMD OTP). An application-level re-auth would prove less, later, about the same operator."@)
    } else if i == 109 {
        GuardVerdict::NotGuarded("The Cartão de Cidadão PIN is entered at the reader for this exact signature. Redundant."@)
    } else if i == 110 {
        GuardVerdict::NotGuarded("Read-only: returns data and mutates no state, so there is nothing to confirm."@)
    } else if i == 111 {
        GuardVerdict::NotGuarded("Signs one ephemeral, domain-separated 32-byte random challenge that exists only in memory and is never persisted (`signature::test_cc_bridge`). It produces no signature over any document and no legally binding artifact — unlike the planned CMD test signature, which does."@)
    } else if i == 112 {
        GuardVerdict::Actions(seq![ConfirmationAction::BatchSignature])
    } else if i == 113 {
        GuardVerdict::Actions(seq![ConfirmationAction::CmdTestSignature])
    } else if i == 114 {
        GuardVerdict::Actions(seq![ConfirmationAction::CmdTestSignature])
    } else if i == 115 {
        GuardVerdict::NotGuarded("Downloads the PDF a completed test signature already produced. Read-only; the signature itself is gated on `/v1/signature/cmd/test-signature/initiate` and `/confirm`."@)
    } else if i == 116 {
        GuardVerdict::NotGuarded("Appends local technical evidence to an existing signed PDF; earlier evidence is preserved."@)
    } else if i == 117 {
        GuardVerdict::NotGuarded("Creates a new record; nothing existing is altered or removed."@)
    } else if i == 118 {
        GuardVerdict::NotGuarded("Appends a document timestamp; earlier evidence is preserved."@)
    } else if i == 119 {
        GuardVerdict::NotGuarded("Appends long-term validation evidence; preserves what is already there."@)
    } else if i == 120 {
        GuardVerdict::NotGuarded("Appends a further evidence revision, preserving the earlier one."@)
    } else if i == 121 {
        GuardVerdict::NotGuarded("Creates a new record; nothing existing is altered or removed."@)
    } else if i == 122 {
        GuardVerdict::Actions(seq![ConfirmationAction::BatchSignature])
    } else if i == 123 {
        GuardVerdict::NotGuarded("Creates a new record; nothing existing is altered or removed."@)
    } else if i == 124 {
        GuardVerdict::NotGuarded("Stores externally produced signed bytes as imported evidence only after proving they extend this act's canonical signing PDF."@)
    } else if i == 125 {
        GuardVerdict::NotGuarded("The PFX passphrase is supplied for this exact signature and is a per-use credential proof."@)
    } else if i == 126 {
        GuardVerdict::Actions(seq![ConfirmationAction::StoredCredentialSignature])
    } else if i == 127 {
        GuardVerdict::NotGuarded("Creates a new record; nothing existing is altered or removed."@)
    } else if i == 128 {
        GuardVerdict::Actions(seq![ConfirmationAction::ExternalSignerInviteRevoke])
    } else if i == 129 {
        GuardVerdict::NotGuarded("Creates a new record; nothing existing is altered or removed."@)
    } else if i == 130 {
        GuardVerdict::NotGuarded("Updates envelope tracking metadata; completes no signature."@)
    } else if i == 131 {
        GuardVerdict::NotGuarded("Read-only: returns data and mutates no state, so there is nothing to confirm."@)
    } else if i == 132 {
        GuardVerdict::NotGuarded("Read-only: returns data and mutates no state, so there is nothing to confirm."@)
    } else if i == 133 {
        GuardVerdict::NotGuarded("Read-only: returns data and mutates no state, so there is nothing to confirm."@)
    } else if i == 134 {
        GuardVerdict::NotGuarded("Parses a candidate certificate the operator already holds and reports what it found. `inspect_ama_certificate` writes no record, appends no ledger event, contacts no provider and performs no key operation — the credential write that may follow is the guarded step."@)
    } else if i == 135 {
        GuardVerdict::NotGuarded("Creates a new record; nothing existing is altered or removed."@)
    } else if i == 136 {
        GuardVerdict::NotGuarded("Sets the failover priority order of stored credential entries. No entry is created, altered or removed."@)
    } else if i == 137 {
        GuardVerdict::NotGuarded("Read-only preview/validation; persists nothing."@)
    } else if i == 138 {
        GuardVerdict::Actions(seq![ConfirmationAction::SigningCredentialDelete])
    } else if i == 139 {
        GuardVerdict::NotGuarded("Read-only: returns data and mutates no state, so there is nothing to confirm."@)
    } else if i == 140 {
        GuardVerdict::NotGuarded("Read-only: returns data and mutates no state, so there is nothing to confirm."@)
    } else if i == 141 {
        GuardVerdict::NotGuarded("Creates a new record; nothing existing is altered or removed."@)
    } else if i == 142 {
        GuardVerdict::Actions(seq![ConfirmationAction::TemplateReplace, ConfirmationAction::TemplateDelete])
    } else if i == 143 {
        GuardVerdict::NotGuarded("Read-only: returns data and mutates no state, so there is nothing to confirm."@)
    } else if i == 144 {
        GuardVerdict::Actions(seq![ConfirmationAction::TemplateVersionDelete])
    } else if i == 145 {
        GuardVerdict::Actions(seq![ConfirmationAction::TemplateVersionRestore])
    } else if i == 146 {
        GuardVerdict::NotGuarded("Read-only: returns data and mutates no state, so there is nothing to confirm."@)
    } else if i == 147 {
        GuardVerdict::NotGuarded("Creates a new record; nothing existing is altered or removed."@)
    } else if i == 148 {
        GuardVerdict::NotGuarded("Read-only preview/validation; persists nothing."@)
    } else if i == 149 {
        GuardVerdict::NotGuarded("Read-only preview/validation; persists nothing."@)
    } else if i == 150 {
        GuardVerdict::NotGuarded("Read-only preview/validation; persists nothing."@)
    } else if i == 151 {
        GuardVerdict::NotGuarded("Read-only: returns data and mutates no state, so there is nothing to confirm."@)
    } else if i == 152 {
        GuardVerdict::NotGuarded("Read-only: returns data and mutates no state, so there is nothing to confirm."@)
    } else if i == 153 {
        GuardVerdict::NotGuarded("Read-only: returns data and mutates no state, so there is nothing to confirm."@)
    } else if i == 154 {
        GuardVerdict::NotGuarded("Read-only: returns data and mutates no state, so there is nothing to confirm."@)
    } else if i == 155 {
        GuardVerdict::NotGuarded("Read-only: returns data and mutates no state, so there is nothing to confirm."@)
    } else if i == 156 {
        GuardVerdict::Actions(seq![ConfirmationAction::LedgerReanchor])
    } else if i == 157 {
        GuardVerdict::Actions(seq![ConfirmationAction::LedgerRestore])
    } else if i == 158 {
        GuardVerdict::NotGuarded("Read-only verification; never swaps the live DB."@)
    } else if i == 159 {
        GuardVerdict::NotGuarded("Creates a new record; nothing existing is altered or removed."@)
    } else if i == 160 {
        GuardVerdict::NotGuarded("Read-only: returns data and mutates no state, so there is nothing to confirm."@)
    } else if i == 161 {
        GuardVerdict::NotGuarded("Creates a new record; nothing existing is altered or removed."@)
    } else if i == 162 {
        GuardVerdict::Actions(seq![ConfirmationAction::ConnectorTargetArchive])
    } else if i == 163 {
        GuardVerdict::NotGuarded("Read-only preview/validation; persists nothing."@)
    } else if i == 164 {
        GuardVerdict::NotGuarded("Runs a configured connector target; creates job records and destroys nothing."@)
    } else if i == 165 {
        GuardVerdict::NotGuarded("Read-only: returns data and mutates no state, so there is nothing to confirm."@)
    } else if i == 166 {
        GuardVerdict::NotGuarded("Read-only: returns data and mutates no state, so there is nothing to confirm."@)
    } else if i == 167 {
        GuardVerdict::Actions(seq![ConfirmationAction::ConnectorJobCancel])
    } else if i == 168 {
        GuardVerdict::NotGuarded("Re-runs a job; idempotent in effect and destroys nothing."@)
    } else if i == 169 {
        GuardVerdict::NotGuarded("Retains a self-verifying bundle under `exports/` and streams it. Purely additive: nothing in the book is altered or removed."@)
    } else if i == 170 {
        GuardVerdict::NotGuarded("Read-only import preview: it verifies the bundle and reports collisions but stages no durable import and appends no event."@)
    } else if i == 171 {
        GuardVerdict::Actions(seq![ConfirmationAction::BookImport])
    } else if i == 172 {
        GuardVerdict::Actions(seq![ConfirmationAction::BookStartOver])
    } else if i == 173 {
        GuardVerdict::PreExistingGate("T4 data-reset family: already phrase (`LIMPAR DADOS` / `REPOR FÁBRICA`) + `require_step_up` + export-first in `data::reset_data`. Out of t56 scope by ruling — do not re-plumb or weaken it."@)
    } else if i == 174 {
        GuardVerdict::NotGuarded("Read-only: returns data and mutates no state, so there is nothing to confirm."@)
    } else if i == 175 {
        GuardVerdict::Actions(seq![ConfirmationAction::DataCleanupExports, ConfirmationAction::DataCleanupOperational])
    } else if i == 176 {
        GuardVerdict::Actions(seq![ConfirmationAction::DataKeyRotation])
    } else if i == 177 {
        GuardVerdict::NotGuarded("Read-only SQLCipher rekey readiness check; the live store key is never touched. The execution route carries the T3 floor."@)
    } else if i == 178 {
        GuardVerdict::PreExistingGate("T4 data-reset family: already phrase (`RECOMEÇAR`) + `require_step_up` + export-first in `data::start_over_instance`. Out of t56 scope by ruling."@)
    } else if i == 179 {
        GuardVerdict::NotGuarded("Read-only: returns data and mutates no state, so there is nothing to confirm."@)
    } else if i == 180 {
        GuardVerdict::NotGuarded("Read-only: returns data and mutates no state, so there is nothing to confirm."@)
    } else if i == 181 {
        GuardVerdict::NotGuarded("Read-only: returns data and mutates no state, so there is nothing to confirm."@)
    } else if i == 182 {
        GuardVerdict::Actions(seq![ConfirmationAction::SearchRebuild])
    } else if i == 183 {
        GuardVerdict::Actions(seq![ConfirmationAction::SearchPause])
    } else if i == 184 {
        GuardVerdict::NotGuarded("Lifts a pause; the safe direction. `search/pause` carries the floor."@)
    } else if i == 185 {
        GuardVerdict::NotGuarded("Read-only: returns data and mutates no state, so there is nothing to confirm."@)
    } else if i == 186 {
        GuardVerdict::NotGuarded("Sets one notification's read/dismissed marker."@)
    } else if i == 187 {
        GuardVerdict::NotGuarded("Replaces the caller's own UI preferences. Cosmetic; no authority, no evidentiary state."@)
    } else if i == 188 {
        GuardVerdict::NotGuarded("Takes a hot backup — additive, destroys nothing."@)
    } else if i == 189 {
        GuardVerdict::Actions(seq![ConfirmationAction::SettingsReplace, ConfirmationAction::EntityTypeDisable])
    } else if i == 190 {
        GuardVerdict::NotGuarded("Replaces only the non-secret search-worker slice; no other configuration is reachable from it and nothing is destroyed."@)
    } else if i == 191 {
        GuardVerdict::NotGuarded("Read-only: returns data and mutates no state, so there is nothing to confirm."@)
    } else if i == 192 {
        GuardVerdict::Actions(seq![ConfirmationAction::EmailPasswordDelete])
    } else if i == 193 {
        GuardVerdict::NotGuarded("Creates a new record; nothing existing is altered or removed."@)
    } else if i == 194 {
        GuardVerdict::NotGuarded("Read-only: returns data and mutates no state, so there is nothing to confirm."@)
    } else if i == 195 {
        GuardVerdict::NotGuarded("Re-sends only messages fully derivable from durable non-secret state; token-bearing mail is refused with `422`."@)
    } else if i == 196 {
        GuardVerdict::NotGuarded("Read-only: returns data and mutates no state, so there is nothing to confirm."@)
    } else if i == 197 {
        GuardVerdict::Actions(seq![ConfirmationAction::PlatformEnvReplace])
    } else if i == 198 {
        GuardVerdict::NotGuarded("Read-only: returns data and mutates no state, so there is nothing to confirm."@)
    } else if i == 199 {
        GuardVerdict::NotGuarded("Ingests one supervisor-forwarded structured log line. Append-only operational telemetry; no domain state."@)
    } else if i == 200 {
        GuardVerdict::Actions(seq![ConfirmationAction::PlatformServiceControl])
    } else if i == 201 {
        GuardVerdict::NotGuarded("Read-only: returns data and mutates no state, so there is nothing to confirm."@)
    } else if i == 202 {
        GuardVerdict::NotGuarded("Swaps the CAE catalog only when the fetched one supersedes the active one; the previous cache is preserved on failure."@)
    } else if i == 203 {
        GuardVerdict::NotGuarded("Read-only: returns data and mutates no state, so there is nothing to confirm."@)
    } else if i == 204 {
        GuardVerdict::NotGuarded("Read-only: returns data and mutates no state, so there is nothing to confirm."@)
    } else if i == 205 {
        GuardVerdict::NotGuarded("Read-only: returns data and mutates no state, so there is nothing to confirm."@)
    } else if i == 206 {
        GuardVerdict::NotGuarded("Read-only: returns data and mutates no state, so there is nothing to confirm."@)
    } else if i == 207 {
        GuardVerdict::NotGuarded("Read-only: returns data and mutates no state, so there is nothing to confirm."@)
    } else if i == 208 {
        GuardVerdict::Actions(seq![ConfirmationAction::TrustListRefresh])
    } else if i == 209 {
        GuardVerdict::NotGuarded("Read-only: returns data and mutates no state, so there is nothing to confirm."@)
    } else if i == 210 {
        GuardVerdict::NotGuarded("Read-only: returns data and mutates no state, so there is nothing to confirm."@)
    } else if i == 211 {
        GuardVerdict::NotGuarded("Read-only: returns data and mutates no state, so there is nothing to confirm."@)
    } else if i == 212 {
        GuardVerdict::NotGuarded("Read-only: returns data and mutates no state, so there is nothing to confirm."@)
    } else if i == 213 {
        GuardVerdict::NotGuarded("Read-only: returns data and mutates no state, so there is nothing to confirm."@)
    } else if i == 214 {
        GuardVerdict::NotGuarded("Read-only preview/validation; persists nothing."@)
    } else if i == 215 {
        GuardVerdict::NotGuarded("Read-only: returns data and mutates no state, so there is nothing to confirm."@)
    } else if i == 216 {
        GuardVerdict::NotGuarded("Read-only: returns data and mutates no state, so there is nothing to confirm."@)
    } else if i == 217 {
        GuardVerdict::NotGuarded("Read-only: returns data and mutates no state, so there is nothing to confirm."@)
    } else if i == 218 {
        GuardVerdict::NotGuarded("Read-only: returns data and mutates no state, so there is nothing to confirm."@)
    } else if i == 219 {
        GuardVerdict::NotGuarded("Downloads a pinned PDF into the archive; additive."@)
    } else if i == 220 {
        GuardVerdict::Actions(seq![ConfirmationAction::LawPdfDelete])
    } else if i == 221 {
        GuardVerdict::NotGuarded("Creates a new record; nothing existing is altered or removed."@)
    } else if i == 222 {
        GuardVerdict::NotGuarded("Read-only: returns data and mutates no state, so there is nothing to confirm."@)
    } else if i == 223 {
        GuardVerdict::Actions(seq![ConfirmationAction::UserDisable])
    } else if i == 224 {
        GuardVerdict::NotGuarded("`users::set_secret` already demands the target's CURRENT password or a valid recovery phrase for every cross-user reset, and the current password for a self change. That is a stronger, target-bound proof than this policy's actor-bound step-up; adding one would be redundant friction."@)
    } else if i == 225 {
        GuardVerdict::NotGuarded("Same target-bound proof as `/v1/users/{id}/secret`: generation requires the target's current password, removal requires the password or a recovery phrase."@)
    } else if i == 226 {
        GuardVerdict::NotGuarded("Issuing/rotating a recovery phrase is gated by the same target-bound credential proof as `set_secret`, and it grants no authority — it replaces one reset credential with another."@)
    } else if i == 227 {
        GuardVerdict::NotGuarded("Read-only: returns data and mutates no state, so there is nothing to confirm."@)
    } else if i == 228 {
        GuardVerdict::NotGuarded("Begins a self-only enrolment that is inert until confirmed; a confirmed factor is never silently swapped out (re-enrol over a confirmed factor is refused)."@)
    } else if i == 229 {
        GuardVerdict::NotGuarded("Activates a factor the user just proved a live code for — the safe direction."@)
    } else if i == 230 {
        GuardVerdict::Actions(seq![ConfirmationAction::TwoFactorDisable])
    } else if i == 231 {
        GuardVerdict::Actions(seq![ConfirmationAction::TwoFactorBackupCodesRegenerate])
    } else if i == 232 {
        GuardVerdict::NotGuarded("GET is read-only. POST completes an enrolment the user has just proved by touching their own authenticator, which is the safe direction and is already the strongest proof available — a confirmation dialog on top would add friction without adding assurance."@)
    } else if i == 233 {
        GuardVerdict::NotGuarded("Mints a registration challenge and nothing else: it stores no credential, and the ceremony it begins is worthless without the authenticator."@)
    } else if i == 234 {
        GuardVerdict::NotGuarded("Removing a passkey already demands step-up re-auth in the handler, and the account-lifecycle guard refuses the removal outright if it would leave the account unable to sign in or unable to be recovered. That is a target-bound credential proof plus a fail-closed invariant — a stricter pair than this policy's actor-bound confirmation, and adding one would be redundant friction on the one screen where a user is already being careful."@)
    } else if i == 235 {
        GuardVerdict::NotGuarded("Mints a re-authentication challenge. Requiring a confirmation to obtain the means of confirming is a loop; the challenge grants nothing and is redeemable only by the acting user's own credential."@)
    } else if i == 236 {
        GuardVerdict::NotGuarded("Read-only: returns data and mutates no state, so there is nothing to confirm."@)
    } else if i == 237 {
        GuardVerdict::NotGuarded("Creates a new record; nothing existing is altered or removed."@)
    } else if i == 238 {
        GuardVerdict::NotGuarded("Creates a new record; nothing existing is altered or removed."@)
    } else if i == 239 {
        GuardVerdict::NotGuarded("Creates a new record; nothing existing is altered or removed."@)
    } else if i == 240 {
        GuardVerdict::NotGuarded("The dual-control approval is a stronger gate than a confirmation: the approver must be a DISTINCT principal from the requester, echo the subject id, acknowledge the carve-outs, and match a freshly recomputed digest. Nothing is destroyed here; `erasure/execute` carries the T3 floor."@)
    } else if i == 241 {
        GuardVerdict::Actions(seq![ConfirmationAction::PrivacyErasureExecute])
    } else if i == 242 {
        GuardVerdict::NotGuarded("Appends a rectification note; never modifies a sealed or signed payload."@)
    } else if i == 243 {
        GuardVerdict::NotGuarded("Appends a restriction marker; never modifies a sealed or signed payload."@)
    } else if i == 244 {
        GuardVerdict::NotGuarded("Updates an editable register record in place; no authority and no evidentiary state is removed."@)
    } else if i == 245 {
        GuardVerdict::NotGuarded("Creates a new record; nothing existing is altered or removed."@)
    } else if i == 246 {
        GuardVerdict::NotGuarded("Creates a new record; nothing existing is altered or removed."@)
    } else if i == 247 {
        GuardVerdict::NotGuarded("Updates an editable register record in place; no authority and no evidentiary state is removed."@)
    } else if i == 248 {
        GuardVerdict::NotGuarded("GET is read-only. PUT replaces the operator's own guidance model and DELETE returns to the model shipped with the build; both are ledger-audited, neither touches a register record, and no sealed, signed or evidentiary state is altered or removed. The ledger retains the payload of every prior version, so a reset destroys nothing that was recorded."@)
    } else if i == 249 {
        GuardVerdict::NotGuarded("Creates a new record; nothing existing is altered or removed."@)
    } else if i == 250 {
        GuardVerdict::NotGuarded("Updates an editable register record in place; no authority and no evidentiary state is removed."@)
    } else if i == 251 {
        GuardVerdict::NotGuarded("Creates a new record; nothing existing is altered or removed."@)
    } else if i == 252 {
        GuardVerdict::NotGuarded("Updates an editable register record in place; no authority and no evidentiary state is removed."@)
    } else if i == 253 {
        GuardVerdict::NotGuarded("Creates a new record; nothing existing is altered or removed."@)
    } else if i == 254 {
        GuardVerdict::NotGuarded("Updates an editable register record in place; no authority and no evidentiary state is removed."@)
    } else if i == 255 {
        GuardVerdict::NotGuarded("Creates a new record; nothing existing is altered or removed."@)
    } else if i == 256 {
        GuardVerdict::NotGuarded("Read-only preview/validation; persists nothing."@)
    } else if i == 257 {
        GuardVerdict::NotGuarded("Read-only: returns data and mutates no state, so there is nothing to confirm."@)
    } else if i == 258 {
        GuardVerdict::NotGuarded("Records evidence-only disposition; executes no disposal."@)
    } else if i == 259 {
        GuardVerdict::NotGuarded("Read-only: returns data and mutates no state, so there is nothing to confirm."@)
    } else if i == 260 {
        GuardVerdict::NotGuarded("Read-only: returns data and mutates no state, so there is nothing to confirm."@)
    } else if i == 261 {
        GuardVerdict::NotGuarded("Closes operator review evidence; executes no disposal."@)
    } else if i == 262 {
        GuardVerdict::NotGuarded("Updates an editable register record in place; no authority and no evidentiary state is removed."@)
    } else if i == 263 {
        GuardVerdict::NotGuarded("Creates a new record; nothing existing is altered or removed."@)
    } else if i == 264 {
        GuardVerdict::Actions(seq![ConfirmationAction::ApiKeyRevoke])
    } else if i == 265 {
        GuardVerdict::Actions(seq![ConfirmationAction::ApiKeyRotate])
    } else if i == 266 {
        GuardVerdict::NotGuarded("Read-only: returns data and mutates no state, so there is nothing to confirm."@)
    } else if i == 267 {
        GuardVerdict::NotGuarded("Creates a new record; nothing existing is altered or removed."@)
    } else if i == 268 {
        GuardVerdict::Actions(seq![ConfirmationAction::RolePermissionChange, ConfirmationAction::RoleDelete])
    } else if i == 269 {
        GuardVerdict::Actions(seq![ConfirmationAction::RoleSeededReconciliation])
    } else if i == 270 {
        GuardVerdict::NotGuarded("Read-only: returns data and mutates no state, so there is nothing to confirm."@)
    } else if i == 271 {
        GuardVerdict::NotGuarded("Read-only: returns the policy shape itself (floor + effective per action) and no instance data. Guarding the endpoint that tells the UI what to guard would be circular."@)
    } else if i == 272 {
        GuardVerdict::Actions(seq![ConfirmationAction::RoleAssign, ConfirmationAction::RoleUnassign])
    } else if i == 273 {
        GuardVerdict::NotGuarded("Granting a delegation is bounded by the delegation invariant (every permission must be held via a role at that scope), and it is revocable and suspendable."@)
    } else if i == 274 {
        GuardVerdict::Actions(seq![ConfirmationAction::DelegationRevoke])
    } else if i == 275 {
        GuardVerdict::Actions(seq![ConfirmationAction::DelegationSuspend])
    } else if i == 276 {
        GuardVerdict::NotGuarded("Lifts a suspension, which is the safe direction: it restores only whatever the funções grant now, and an expired delegation stays spent."@)
    } else if i == 277 {
        GuardVerdict::NotGuarded("Read-only: returns data and mutates no state, so there is nothing to confirm."@)
    } else if i == 278 {
        GuardVerdict::NotGuarded("Read-only: returns data and mutates no state, so there is nothing to confirm."@)
    } else if i == 279 {
        GuardVerdict::Actions(seq![ConfirmationAction::SessionRevoke])
    } else if i == 280 {
        GuardVerdict::Actions(seq![ConfirmationAction::SessionRevokeOthers])
    } else if i == 281 {
        GuardVerdict::NotGuarded("Issues an invitation bounded by `user.invite`@scope plus the role subset invariant; it grants no authority the actor does not already hold and can be left unaccepted."@)
    } else if i == 282 {
        GuardVerdict::Actions(seq![ConfirmationAction::DevicePairing])
    } else if i == 283 {
        GuardVerdict::NotGuarded("Read-only: returns data and mutates no state, so there is nothing to confirm."@)
    } else if i == 284 {
        GuardVerdict::Actions(seq![ConfirmationAction::PairingDeviceRevoke])
    } else {
        GuardVerdict::Actions(Seq::empty())
    }
}

/// The registry entry at index `i`: a route path and its verdict.
pub fn route_guard_entry(i: usize) -> (r: (&'static str, RouteGuard))
    requires
        i < ROUTE_GUARD_LEN,
    ensures
        r.0@ == route_path(i as int),
        r.1@ == route_verdict(i as int),
{
    match i {
        0 => ("/v1/entities", RouteGuard::NotGuarded("Creates a new record; nothing existing is altered or removed.")),
        1 => ("/v1/entities/page", RouteGuard::NotGuarded("Read-only: returns data and mutates no state, so there is nothing to confirm.")),
        2 => ("/v1/entities/{id}", RouteGuard::NotGuarded("Edits mutable draft state and is refused once the record is frozen.")),
        3 => {
            let s: &'static [ConfirmationAction] = &[ConfirmationAction::EntityArchive];
            assert(s@ =~= seq![ConfirmationAction::EntityArchive]);
            ("/v1/entities/{id}/archive", RouteGuard::Actions(s))
        },
        4 => ("/v1/entities/{id}/unarchive", RouteGuard::NotGuarded("Returns an entity to active authorship. Granting the ability to start work back is not the dangerous direction, and it is separately ledgered.")),
        5 => ("/v1/entities/import-from-registry", RouteGuard::NotGuarded("Creates a new record; nothing existing is altered or removed.")),
        6 => ("/v1/entities/{id}/registry", RouteGuard::NotGuarded("Accepts one backend-owned auto-update attempt carrying only worker control metadata.")),
        7 => ("/v1/entities/{id}/registry/import", RouteGuard::NotGuarded("Creates a new record; nothing existing is altered or removed.")),
        8 => ("/v1/entities/{id}/chronology", RouteGuard::NotGuarded("Read-only: returns data and mutates no state, so there is nothing to confirm.")),
        9 => ("/v1/tenants", RouteGuard::NotGuarded("Creates a new record; nothing existing is altered or removed.")),
        10 => ("/v1/tenants/{tenant_id}", RouteGuard::NotGuarded("Read-only: returns data and mutates no state, so there is nothing to confirm.")),
        11 => ("/v1/tenants/{tenant_id}/groups", RouteGuard::NotGuarded("Creates a new record; nothing existing is altered or removed.")),
        12 => {
            let s: &'static [ConfirmationAction] = &[ConfirmationAction::GroupArchive];
            assert(s@ =~= seq![ConfirmationAction::GroupArchive]);
            ("/v1/tenants/{tenant_id}/groups/{group_id}", RouteGuard::Actions(s))
        },
        13 => {
            let s: &'static [ConfirmationAction] = &[ConfirmationAction::GroupEntityRemove];
            assert(s@ =~= seq![ConfirmationAction::GroupEntityRemove]);
            ("/v1/tenants/{tenant_id}/groups/{group_id}/entities/{entity_id}", RouteGuard::Actions(s))
        },
        14 => ("/v1/tenants/{tenant_id}/groups/{group_id}/dashboard", RouteGuard::NotGuarded("Read-only: returns data and mutates no state, so there is nothing to confirm.")),
        15 => ("/v1/tenants/{tenant_id}/groups/{group_id}/template-libraries", RouteGuard::NotGuarded("Creates a new record; nothing existing is altered or removed.")),
        16 => {
            let s: &'static [ConfirmationAction] = &[ConfirmationAction::TemplateLibraryArchive];
            assert(s@ =~= seq![ConfirmationAction::TemplateLibraryArchive]);
            ("/v1/tenants/{tenant_id}/groups/{group_id}/template-libraries/{library_id}", RouteGuard::Actions(s))
        },
        17 => ("/v1/tenants/{tenant_id}/groups/{group_id}/template-libraries/{library_id}/revisions", RouteGuard::NotGuarded("Creates a new record; nothing existing is altered or removed.")),
        18 => ("/v1/tenants/{tenant_id}/groups/{group_id}/template-libraries/{library_id}/history", RouteGuard::NotGuarded("Read-only: returns data and mutates no state, so there is nothing to confirm.")),
        19 => ("/v1/tenants/{tenant_id}/groups/{group_id}/template-libraries/{library_id}/revisions/{revision}", RouteGuard::NotGuarded("Read-only: returns data and mutates no state, so there is nothing to confirm.")),
        20 => ("/v1/zk-repositories/storage-status", RouteGuard::NotGuarded("Read-only: returns data and mutates no state, so there is nothing to confirm.")),
        21 => ("/v1/zk-repositories/shared-object-root", RouteGuard::NotGuarded("Declares or clears the shared object root path; stored objects are untouched.")),
        22 => {
            let s: &'static [ConfirmationAction] = &[ConfirmationAction::RepositoryPolicyDelete];
            assert(s@ =~= seq![ConfirmationAction::RepositoryPolicyDelete]);
            ("/v1/tenants/{tenant_id}/repository-policy", RouteGuard::Actions(s))
        },
        23 => ("/v1/tenants/{tenant_id}/repositories", RouteGuard::NotGuarded("Creates a new record; nothing existing is altered or removed.")),
        24 => {
            let s: &'static [ConfirmationAction] = &[ConfirmationAction::RepositoryDelete];
            assert(s@ =~= seq![ConfirmationAction::RepositoryDelete]);
            ("/v1/tenants/{tenant_id}/repositories/{repository_id}", RouteGuard::Actions(s))
        },
        25 => ("/v1/tenants/{tenant_id}/repositories/{repository_id}/uploads", RouteGuard::NotGuarded("Creates a new record; nothing existing is altered or removed.")),
        26 => ("/v1/tenants/{tenant_id}/repositories/{repository_id}/uploads/{upload_id}/ciphertext", RouteGuard::NotGuarded("Uploads ciphertext for a staged upload; object versions are immutable and never replaced.")),
        27 => ("/v1/tenants/{tenant_id}/repositories/{repository_id}/objects", RouteGuard::NotGuarded("Read-only: returns data and mutates no state, so there is nothing to confirm.")),
        28 => ("/v1/tenants/{tenant_id}/repositories/{repository_id}/objects/{object_id}/versions/{version}/manifest", RouteGuard::NotGuarded("Read-only: returns data and mutates no state, so there is nothing to confirm.")),
        29 => ("/v1/tenants/{tenant_id}/repositories/{repository_id}/objects/{object_id}/versions/{version}/ciphertext", RouteGuard::NotGuarded("Read-only: returns data and mutates no state, so there is nothing to confirm.")),
        30 => ("/v1/tenants/{tenant_id}/repositories/{repository_id}/objects/{object_id}/versions/{version}/readability-package", RouteGuard::PreExistingGate("Already `require_step_up` in `zk_repository::create_readability_package` (annotated in `ROUTE_CLASSIFICATION`): producing readable plaintext from a zero-knowledge repository is gated by the operator's own credential at the call site. Folding it into the policy would let an operator configuration lower an existing hard-coded gate.")),
        31 => ("/v1/registry/lookup", RouteGuard::NotGuarded("Read-only preview/validation; persists nothing.")),
        32 => ("/v1/books", RouteGuard::NotGuarded("Creates a new record; nothing existing is altered or removed.")),
        33 => ("/v1/books/page", RouteGuard::NotGuarded("Read-only: returns data and mutates no state, so there is nothing to confirm.")),
        34 => ("/v1/books/{id}", RouteGuard::NotGuarded("Replaces or clears the book's document-layout override only — no evidentiary state, no lifecycle transition.")),
        35 => {
            let s: &'static [ConfirmationAction] = &[ConfirmationAction::BookClose];
            assert(s@ =~= seq![ConfirmationAction::BookClose]);
            ("/v1/books/{id}/close", RouteGuard::Actions(s))
        },
        36 => ("/v1/books/{id}/acts", RouteGuard::NotGuarded("Read-only: returns data and mutates no state, so there is nothing to confirm.")),
        37 => ("/v1/books/{id}/termo/abertura", RouteGuard::NotGuarded("Edits mutable draft state and is refused once the record is frozen.")),
        38 => {
            let s: &'static [ConfirmationAction] = &[ConfirmationAction::TermoAberturaAdvance];
            assert(s@ =~= seq![ConfirmationAction::TermoAberturaAdvance]);
            ("/v1/books/{id}/termo/abertura/advance", RouteGuard::Actions(s))
        },
        39 => ("/v1/books/{id}/termo/abertura/sign", RouteGuard::NotGuarded("Creates a new record; nothing existing is altered or removed.")),
        40 => ("/v1/books/{id}/termo/abertura/sign/pkcs12", RouteGuard::NotGuarded("The PFX passphrase is a per-use credential proof for this exact slot signature.")),
        41 => ("/v1/books/{id}/termo/abertura/document", RouteGuard::NotGuarded("Read-only: returns data and mutates no state, so there is nothing to confirm.")),
        42 => ("/v1/books/{id}/termo/abertura/signatures/{slot_id}", RouteGuard::NotGuarded("Read-only: returns data and mutates no state, so there is nothing to confirm.")),
        43 => {
            let s: &'static [ConfirmationAction] = &[ConfirmationAction::TermoAberturaOpen];
            assert(s@ =~= seq![ConfirmationAction::TermoAberturaOpen]);
            ("/v1/books/{id}/termo/abertura/open", RouteGuard::Actions(s))
        },
        44 => ("/v1/books/{id}/termo/encerramento", RouteGuard::NotGuarded("Edits mutable draft state and is refused once the record is frozen.")),
        45 => {
            let s: &'static [ConfirmationAction] = &[ConfirmationAction::TermoEncerramentoAdvance];
            assert(s@ =~= seq![ConfirmationAction::TermoEncerramentoAdvance]);
            ("/v1/books/{id}/termo/encerramento/advance", RouteGuard::Actions(s))
        },
        46 => ("/v1/books/{id}/termo/encerramento/sign", RouteGuard::NotGuarded("Creates a new record; nothing existing is altered or removed.")),
        47 => ("/v1/books/{id}/termo/encerramento/sign/pkcs12", RouteGuard::NotGuarded("The PFX passphrase is a per-use credential proof for this exact slot signature.")),
        48 => {
            let s: &'static [ConfirmationAction] = &[ConfirmationAction::TermoEncerramentoClose];
            assert(s@ =~= seq![ConfirmationAction::TermoEncerramentoClose]);
            ("/v1/books/{id}/termo/encerramento/close", RouteGuard::Actions(s))
        },
        49 => ("/v1/books/paper-import/validate", RouteGuard::NotGuarded("Read-only preview/validation; persists nothing.")),
        50 => ("/v1/books/paper-import", RouteGuard::NotGuarded("Creates a new record; nothing existing is altered or removed.")),
        51 => ("/v1/books/paper-import/{id}", RouteGuard::NotGuarded("Read-only: returns data and mutates no state, so there is nothing to confirm.")),
        52 => ("/v1/books/paper-import/{id}/ocr/enqueue", RouteGuard::NotGuarded("Creates a new record; nothing existing is altered or removed.")),
        53 => ("/v1/books/paper-import/{id}/ocr-status", RouteGuard::NotGuarded("Updates only the OCR lifecycle marker on a preserved paper-book import. Metadata-only; stores no OCR output.")),
        54 => ("/v1/books/paper-import/{id}/ocr/run", RouteGuard::NotGuarded("Stores bounded stdout as a non-authoritative draft; creates no canonical text.")),
        55 => ("/v1/books/paper-import/{id}/ocr-drafts", RouteGuard::NotGuarded("Creates a new record; nothing existing is altered or removed.")),
        56 => ("/v1/books/paper-import/{id}/ocr-drafts/{draft_id}/review", RouteGuard::NotGuarded("Metadata-only review state on a non-authoritative OCR draft.")),
        57 => ("/v1/books/paper-import/{id}/ocr-drafts/{draft_id}/canonical-draft", RouteGuard::NotGuarded("Creates a new record; nothing existing is altered or removed.")),
        58 => ("/v1/books/paper-import/{id}/ocr-drafts/{draft_id}/conversion-dossier", RouteGuard::NotGuarded("Creates a new record; nothing existing is altered or removed.")),
        59 => ("/v1/books/paper-import/{id}/conversion-dossiers", RouteGuard::NotGuarded("Read-only: returns data and mutates no state, so there is nothing to confirm.")),
        60 => ("/v1/books/paper-import/{id}/ocr-canonical-rehearsal", RouteGuard::NotGuarded("Read-only: returns data and mutates no state, so there is nothing to confirm.")),
        61 => ("/v1/books/paper-import/{id}/bytes", RouteGuard::NotGuarded("Read-only: returns data and mutates no state, so there is nothing to confirm.")),
        62 => {
            let s: &'static [ConfirmationAction] = &[ConfirmationAction::LegalHoldRelease];
            assert(s@ =~= seq![ConfirmationAction::LegalHoldRelease]);
            ("/v1/books/{id}/legal-hold", RouteGuard::Actions(s))
        },
        63 => ("/v1/books/{id}/archive/package", RouteGuard::NotGuarded("Read-only: returns data and mutates no state, so there is nothing to confirm.")),
        64 => ("/v1/books/{id}/archive/local-dglab-interchange-manifest", RouteGuard::NotGuarded("Read-only: returns data and mutates no state, so there is nothing to confirm.")),
        65 => {
            let s: &'static [ConfirmationAction] = &[ConfirmationAction::BookArchiveDisposal];
            assert(s@ =~= seq![ConfirmationAction::BookArchiveDisposal]);
            ("/v1/books/{id}/archive/disposal", RouteGuard::Actions(s))
        },
        66 => ("/v1/acts", RouteGuard::NotGuarded("Creates a new record; nothing existing is altered or removed.")),
        67 => ("/v1/acts/{id}", RouteGuard::NotGuarded("Edits mutable draft state and is refused once the record is frozen.")),
        68 => ("/v1/acts/{id}/advance", RouteGuard::NotGuarded("One forward pre-signature lifecycle step, reversible by `acts/{id}/revert`.")),
        69 => {
            let s: &'static [ConfirmationAction] = &[ConfirmationAction::ActReopen];
            assert(s@ =~= seq![ConfirmationAction::ActReopen]);
            ("/v1/acts/{id}/reopen", RouteGuard::Actions(s))
        },
        70 => {
            let s: &'static [ConfirmationAction] = &[ConfirmationAction::ActRevert];
            assert(s@ =~= seq![ConfirmationAction::ActRevert]);
            ("/v1/acts/{id}/revert", RouteGuard::Actions(s))
        },
        71 => ("/v1/acts/{id}/human-verification", RouteGuard::NotGuarded("Records accept/reject of human review over AI-assisted draft text.")),
        72 => ("/v1/acts/{id}/body/preview", RouteGuard::NotGuarded("Read-only preview/validation; persists nothing.")),
        73 => ("/v1/acts/{id}/compliance", RouteGuard::NotGuarded("Read-only: returns data and mutates no state, so there is nothing to confirm.")),
        74 => {
            let s: &'static [ConfirmationAction] = &[ConfirmationAction::ActSeal];
            assert(s@ =~= seq![ConfirmationAction::ActSeal]);
            ("/v1/acts/{id}/seal", RouteGuard::Actions(s))
        },
        75 => {
            let s: &'static [ConfirmationAction] = &[ConfirmationAction::ActArchive];
            assert(s@ =~= seq![ConfirmationAction::ActArchive]);
            ("/v1/acts/{id}/archive", RouteGuard::Actions(s))
        },
        76 => ("/v1/acts/{id}/follow-ups", RouteGuard::NotGuarded("Creates a new record; nothing existing is altered or removed.")),
        77 => ("/v1/follow-ups/{id}", RouteGuard::NotGuarded("Edits mutable draft state and is refused once the record is frozen.")),
        78 => ("/v1/follow-ups/{id}/complete", RouteGuard::NotGuarded("Marks an open follow-up row completed. Single-subject workflow bookkeeping; no evidentiary or authority consequence.")),
        79 => ("/v1/acts/{id}/convening/dispatch", RouteGuard::NotGuarded("Records that a convening notice was dispatched — an append-only evidentiary assertion that removes nothing.")),
        80 => ("/v1/acts/{id}/document/preview", RouteGuard::NotGuarded("Read-only: returns data and mutates no state, so there is nothing to confirm.")),
        81 => ("/v1/acts/{id}/document/generate", RouteGuard::NotGuarded("Creates a new record; nothing existing is altered or removed.")),
        82 => ("/v1/acts/{act_id}/documents/generated", RouteGuard::NotGuarded("Read-only: returns data and mutates no state, so there is nothing to confirm.")),
        83 => ("/v1/documents/generated/{document_id}", RouteGuard::NotGuarded("Read-only: returns data and mutates no state, so there is nothing to confirm.")),
        84 => ("/v1/documents/generated/{document_id}/dispatch-evidence", RouteGuard::NotGuarded("Records metadata-only dispatch evidence; sends nothing and mutates no sealed bytes.")),
        85 => ("/v1/acts/{id}/document/working-copy", RouteGuard::NotGuarded("Read-only: returns data and mutates no state, so there is nothing to confirm.")),
        86 => ("/v1/acts/{id}/document/office", RouteGuard::NotGuarded("Read-only: returns data and mutates no state, so there is nothing to confirm.")),
        87 => ("/v1/acts/{id}/document", RouteGuard::NotGuarded("Read-only: returns data and mutates no state, so there is nothing to confirm.")),
        88 => ("/v1/acts/{id}/document/bundle", RouteGuard::NotGuarded("Read-only: returns data and mutates no state, so there is nothing to confirm.")),
        89 => ("/v1/documents/import", RouteGuard::NotGuarded("Creates a new record; nothing existing is altered or removed.")),
        90 => ("/v1/documents/imported", RouteGuard::NotGuarded("Read-only: returns data and mutates no state, so there is nothing to confirm.")),
        91 => ("/v1/documents/imported/{id}", RouteGuard::NotGuarded("Read-only: returns data and mutates no state, so there is nothing to confirm.")),
        92 => ("/v1/documents/imported/{id}/review", RouteGuard::NotGuarded("Metadata-only review-state transition; never touches canonical or signed rows.")),
        93 => ("/v1/documents/imported/{id}/bytes", RouteGuard::NotGuarded("Read-only: returns data and mutates no state, so there is nothing to confirm.")),
        94 => ("/v1/documents/import/validate", RouteGuard::NotGuarded("Read-only preview/validation; persists nothing.")),
        95 => ("/v1/external-validator-reports", RouteGuard::NotGuarded("Accepts operator-supplied technical metadata only.")),
        96 => ("/v1/external-validator-reports/{case_id}/{validator_family}", RouteGuard::NotGuarded("Read-only: returns data and mutates no state, so there is nothing to confirm.")),
        97 => ("/v1/external-validator-reports/{case_id}/{validator_family}/raw-report", RouteGuard::NotGuarded("Read-only: returns data and mutates no state, so there is nothing to confirm.")),
        98 => ("/v1/signature/pdf/validate", RouteGuard::NotGuarded("Read-only preview/validation; persists nothing.")),
        99 => ("/v1/signature/pdf/validate/report", RouteGuard::NotGuarded("Read-only preview/validation; persists nothing.")),
        100 => ("/v1/signature/asic/inspect", RouteGuard::NotGuarded("Read-only preview/validation; persists nothing.")),
        101 => ("/v1/signature/xades/sign", RouteGuard::NotGuarded("Signs caller-supplied content and returns it; nothing is persisted.")),
        102 => ("/v1/signature/xades/validate", RouteGuard::NotGuarded("Read-only preview/validation; persists nothing.")),
        103 => ("/v1/signature/asic/sign", RouteGuard::NotGuarded("Signs caller-supplied content and returns it; nothing is persisted.")),
        104 => ("/v1/scap/providers", RouteGuard::NotGuarded("Creates a new record; nothing existing is altered or removed.")),
        105 => ("/v1/scap/attributes", RouteGuard::NotGuarded("Creates a new record; nothing existing is altered or removed.")),
        106 => ("/v1/scap/sign", RouteGuard::NotGuarded("Signs caller-supplied content and returns it; nothing is persisted.")),
        107 => ("/v1/acts/{id}/signature/cmd/initiate", RouteGuard::NotGuarded("Creates a new record; nothing existing is altered or removed.")),
        108 => ("/v1/acts/{id}/signature/cmd/confirm", RouteGuard::NotGuarded("The signer proves possession out of band at the moment of signing (CMD OTP). An application-level re-auth would prove less, later, about the same operator.")),
        109 => ("/v1/acts/{id}/signature/cc/sign", RouteGuard::NotGuarded("The Cartão de Cidadão PIN is entered at the reader for this exact signature. Redundant.")),
        110 => ("/v1/signature/cc/bridge/status", RouteGuard::NotGuarded("Read-only: returns data and mutates no state, so there is nothing to confirm.")),
        111 => ("/v1/signature/cc/bridge/test", RouteGuard::NotGuarded("Signs one ephemeral, domain-separated 32-byte random challenge that exists only in memory and is never persisted (`signature::test_cc_bridge`). It produces no signature over any document and no legally binding artifact — unlike the planned CMD test signature, which does.")),
        112 => {
            let s: &'static [ConfirmationAction] = &[ConfirmationAction::BatchSignature];
            assert(s@ =~= seq![ConfirmationAction::BatchSignature]);
            ("/v1/signature/cc/batch-sign", RouteGuard::Actions(s))
        },
        113 => {
            let s: &'static [ConfirmationAction] = &[ConfirmationAction::CmdTestSignature];
            assert(s@ =~= seq![ConfirmationAction::CmdTestSignature]);
            ("/v1/signature/cmd/test-signature/initiate", RouteGuard::Actions(s))
        },
        114 => {
            let s: &'static [ConfirmationAction] = &[ConfirmationAction::CmdTestSignature];
            assert(s@ =~= seq![ConfirmationAction::CmdTestSignature]);
            ("/v1/signature/cmd/test-signature/confirm", RouteGuard::Actions(s))
        },
        115 => ("/v1/signature/cmd/test-signature/{test_id}/document", RouteGuard::NotGuarded("Downloads the PDF a completed test signature already produced. Read-only; the signature itself is gated on `/v1/signature/cmd/test-signature/initiate` and `/confirm`.")),
        116 => ("/v1/acts/{id}/signature/dss/attach", RouteGuard::NotGuarded("Appends local technical evidence to an existing signed PDF; earlier evidence is preserved.")),
        117 => ("/v1/acts/{id}/signature/dss/collect-revocation", RouteGuard::NotGuarded("Creates a new record; nothing existing is altered or removed.")),
        118 => ("/v1/acts/{id}/signature/archive-timestamp/append", RouteGuard::NotGuarded("Appends a document timestamp; earlier evidence is preserved.")),
        119 => ("/v1/acts/{id}/signature/ltv/execute", RouteGuard::NotGuarded("Appends long-term validation evidence; preserves what is already there.")),
        120 => ("/v1/acts/{id}/signature/ltv/renew", RouteGuard::NotGuarded("Appends a further evidence revision, preserving the earlier one.")),
        121 => ("/v1/acts/{id}/signature/remote/{provider}/initiate", RouteGuard::NotGuarded("Creates a new record; nothing existing is altered or removed.")),
        122 => {
            let s: &'static [ConfirmationAction] = &[ConfirmationAction::BatchSignature];
            assert(s@ =~= seq![ConfirmationAction::BatchSignature]);
            ("/v1/signature/remote/{provider}/batch-initiate", RouteGuard::Actions(s))
        },
        123 => ("/v1/acts/{id}/signature/remote/{provider}/confirm", RouteGuard::NotGuarded("Creates a new record; nothing existing is altered or removed.")),
        124 => ("/v1/acts/{id}/signature/official/import", RouteGuard::NotGuarded("Stores externally produced signed bytes as imported evidence only after proving they extend this act's canonical signing PDF.")),
        125 => ("/v1/acts/{id}/signature/local/pkcs12/sign", RouteGuard::NotGuarded("The PFX passphrase is supplied for this exact signature and is a per-use credential proof.")),
        126 => {
            let s: &'static [ConfirmationAction] = &[ConfirmationAction::StoredCredentialSignature];
            assert(s@ =~= seq![ConfirmationAction::StoredCredentialSignature]);
            ("/v1/acts/{id}/signature/local/pkcs12/sign-stored", RouteGuard::Actions(s))
        },
        127 => ("/v1/acts/{id}/signature/external-invites", RouteGuard::NotGuarded("Creates a new record; nothing existing is altered or removed.")),
        128 => {
            let s: &'static [ConfirmationAction] = &[ConfirmationAction::ExternalSignerInviteRevoke];
            assert(s@ =~= seq![ConfirmationAction::ExternalSignerInviteRevoke]);
            ("/v1/acts/{id}/signature/external-invites/{invite_id}/revoke", RouteGuard::Actions(s))
        },
        129 => ("/v1/acts/{id}/external-signing/envelopes", RouteGuard::NotGuarded("Creates a new record; nothing existing is altered or removed.")),
        130 => ("/v1/external-signing/envelopes/{id}", RouteGuard::NotGuarded("Updates envelope tracking metadata; completes no signature.")),
        131 => ("/v1/signature/providers", RouteGuard::NotGuarded("Read-only: returns data and mutates no state, so there is nothing to confirm.")),
        132 => ("/v1/signature/provider-credentials/status", RouteGuard::NotGuarded("Read-only: returns data and mutates no state, so there is nothing to confirm.")),
        133 => ("/v1/signature/provider-credentials", RouteGuard::NotGuarded("Read-only: returns data and mutates no state, so there is nothing to confirm.")),
        134 => ("/v1/signature/provider-credentials/cmd/ama-certificate/inspect", RouteGuard::NotGuarded("Parses a candidate certificate the operator already holds and reports what it found. `inspect_ama_certificate` writes no record, appends no ledger event, contacts no provider and performs no key operation — the credential write that may follow is the guarded step.")),
        135 => ("/v1/signature/provider-credentials/{mode}/{provider_id}/entries", RouteGuard::NotGuarded("Creates a new record; nothing existing is altered or removed.")),
        136 => ("/v1/signature/provider-credentials/{mode}/{provider_id}/entries/reorder", RouteGuard::NotGuarded("Sets the failover priority order of stored credential entries. No entry is created, altered or removed.")),
        137 => ("/v1/signature/provider-credentials/{mode}/{provider_id}/entries/{entry_id}/probe", RouteGuard::NotGuarded("Read-only preview/validation; persists nothing.")),
        138 => {
            let s: &'static [ConfirmationAction] = &[ConfirmationAction::SigningCredentialDelete];
            assert(s@ =~= seq![ConfirmationAction::SigningCredentialDelete]);
            ("/v1/signature/provider-credentials/{mode}/{provider_id}/entries/{entry_id}", RouteGuard::Actions(s))
        },
        139 => ("/v1/acts/{id}/signature", RouteGuard::NotGuarded("Read-only: returns data and mutates no state, so there is nothing to confirm.")),
        140 => ("/v1/acts/{id}/document/signed", RouteGuard::NotGuarded("Read-only: returns data and mutates no state, so there is nothing to confirm.")),
        141 => ("/v1/templates", RouteGuard::NotGuarded("Creates a new record; nothing existing is altered or removed.")),
        142 => {
            let s: &'static [ConfirmationAction] = &[ConfirmationAction::TemplateReplace, ConfirmationAction::TemplateDelete];
            assert(s@ =~= seq![ConfirmationAction::TemplateReplace, ConfirmationAction::TemplateDelete]);
            ("/v1/templates/{id}", RouteGuard::Actions(s))
        },
        143 => ("/v1/templates/{id}/versions", RouteGuard::NotGuarded("Read-only: returns data and mutates no state, so there is nothing to confirm.")),
        144 => {
            let s: &'static [ConfirmationAction] = &[ConfirmationAction::TemplateVersionDelete];
            assert(s@ =~= seq![ConfirmationAction::TemplateVersionDelete]);
            ("/v1/templates/{id}/versions/{version_id}", RouteGuard::Actions(s))
        },
        145 => {
            let s: &'static [ConfirmationAction] = &[ConfirmationAction::TemplateVersionRestore];
            assert(s@ =~= seq![ConfirmationAction::TemplateVersionRestore]);
            ("/v1/templates/{id}/versions/{version_id}/restore", RouteGuard::Actions(s))
        },
        146 => ("/v1/templates/{id}/export", RouteGuard::NotGuarded("Read-only: returns data and mutates no state, so there is nothing to confirm.")),
        147 => ("/v1/templates/import", RouteGuard::NotGuarded("Creates a new record; nothing existing is altered or removed.")),
        148 => ("/v1/templates/body/preview", RouteGuard::NotGuarded("Read-only preview/validation; persists nothing.")),
        149 => ("/v1/templates/document/preview", RouteGuard::NotGuarded("Read-only preview/validation; persists nothing.")),
        150 => ("/v1/templates/document/preview/markdown", RouteGuard::NotGuarded("Read-only preview/validation; persists nothing.")),
        151 => ("/v1/ledger/events", RouteGuard::NotGuarded("Read-only: returns data and mutates no state, so there is nothing to confirm.")),
        152 => ("/v1/ledger/events/page", RouteGuard::NotGuarded("Read-only: returns data and mutates no state, so there is nothing to confirm.")),
        153 => ("/v1/ledger/archive/document", RouteGuard::NotGuarded("Read-only: returns data and mutates no state, so there is nothing to confirm.")),
        154 => ("/v1/ledger/verify", RouteGuard::NotGuarded("Read-only: returns data and mutates no state, so there is nothing to confirm.")),
        155 => ("/v1/ledger/integrity", RouteGuard::NotGuarded("Read-only: returns data and mutates no state, so there is nothing to confirm.")),
        156 => {
            let s: &'static [ConfirmationAction] = &[ConfirmationAction::LedgerReanchor];
            assert(s@ =~= seq![ConfirmationAction::LedgerReanchor]);
            ("/v1/ledger/recovery/reanchor", RouteGuard::Actions(s))
        },
        157 => {
            let s: &'static [ConfirmationAction] = &[ConfirmationAction::LedgerRestore];
            assert(s@ =~= seq![ConfirmationAction::LedgerRestore]);
            ("/v1/ledger/recovery/restore", RouteGuard::Actions(s))
        },
        158 => ("/v1/ledger/recovery/restore/preflight", RouteGuard::NotGuarded("Read-only verification; never swaps the live DB.")),
        159 => ("/v1/backup/recovery-drills", RouteGuard::NotGuarded("Creates a new record; nothing existing is altered or removed.")),
        160 => ("/v1/sync/handoff-preflight", RouteGuard::NotGuarded("Read-only: returns data and mutates no state, so there is nothing to confirm.")),
        161 => ("/v1/tenants/{tenant_id}/connector-targets", RouteGuard::NotGuarded("Creates a new record; nothing existing is altered or removed.")),
        162 => {
            let s: &'static [ConfirmationAction] = &[ConfirmationAction::ConnectorTargetArchive];
            assert(s@ =~= seq![ConfirmationAction::ConnectorTargetArchive]);
            ("/v1/tenants/{tenant_id}/connector-targets/{target_id}", RouteGuard::Actions(s))
        },
        163 => ("/v1/tenants/{tenant_id}/connector-targets/{target_id}/probe", RouteGuard::NotGuarded("Read-only preview/validation; persists nothing.")),
        164 => ("/v1/tenants/{tenant_id}/connector-targets/{target_id}/run", RouteGuard::NotGuarded("Runs a configured connector target; creates job records and destroys nothing.")),
        165 => ("/v1/tenants/{tenant_id}/connector-jobs", RouteGuard::NotGuarded("Read-only: returns data and mutates no state, so there is nothing to confirm.")),
        166 => ("/v1/tenants/{tenant_id}/connector-jobs/{job_id}", RouteGuard::NotGuarded("Read-only: returns data and mutates no state, so there is nothing to confirm.")),
        167 => {
            let s: &'static [ConfirmationAction] = &[ConfirmationAction::ConnectorJobCancel];
            assert(s@ =~= seq![ConfirmationAction::ConnectorJobCancel]);
            ("/v1/tenants/{tenant_id}/connector-jobs/{job_id}/cancel", RouteGuard::Actions(s))
        },
        168 => ("/v1/tenants/{tenant_id}/connector-jobs/{job_id}/retry", RouteGuard::NotGuarded("Re-runs a job; idempotent in effect and destroys nothing.")),
        169 => ("/v1/books/{id}/export", RouteGuard::NotGuarded("Retains a self-verifying bundle under `exports/` and streams it. Purely additive: nothing in the book is altered or removed.")),
        170 => ("/v1/books/import/preflight", RouteGuard::NotGuarded("Read-only import preview: it verifies the bundle and reports collisions but stages no durable import and appends no event.")),
        171 => {
            let s: &'static [ConfirmationAction] = &[ConfirmationAction::BookImport];
            assert(s@ =~= seq![ConfirmationAction::BookImport]);
            ("/v1/books/import", RouteGuard::Actions(s))
        },
        172 => {
            let s: &'static [ConfirmationAction] = &[ConfirmationAction::BookStartOver];
            assert(s@ =~= seq![ConfirmationAction::BookStartOver]);
            ("/v1/books/{id}/start-over", RouteGuard::Actions(s))
        },
        173 => ("/v1/data/reset", RouteGuard::PreExistingGate("T4 data-reset family: already phrase (`LIMPAR DADOS` / `REPOR FÁBRICA`) + `require_step_up` + export-first in `data::reset_data`. Out of t56 scope by ruling — do not re-plumb or weaken it.")),
        174 => ("/v1/data/status", RouteGuard::NotGuarded("Read-only: returns data and mutates no state, so there is nothing to confirm.")),
        175 => {
            let s: &'static [ConfirmationAction] = &[ConfirmationAction::DataCleanupExports, ConfirmationAction::DataCleanupOperational];
            assert(s@ =~= seq![ConfirmationAction::DataCleanupExports, ConfirmationAction::DataCleanupOperational]);
            ("/v1/data/cleanup", RouteGuard::Actions(s))
        },
        176 => {
            let s: &'static [ConfirmationAction] = &[ConfirmationAction::DataKeyRotation];
            assert(s@ =~= seq![ConfirmationAction::DataKeyRotation]);
            ("/v1/data/key-rotation", RouteGuard::Actions(s))
        },
        177 => ("/v1/data/key-rotation/preflight", RouteGuard::NotGuarded("Read-only SQLCipher rekey readiness check; the live store key is never touched. The execution route carries the T3 floor.")),
        178 => ("/v1/data/start-over", RouteGuard::PreExistingGate("T4 data-reset family: already phrase (`RECOMEÇAR`) + `require_step_up` + export-first in `data::start_over_instance`. Out of t56 scope by ruling.")),
        179 => ("/v1/dashboard", RouteGuard::NotGuarded("Read-only: returns data and mutates no state, so there is nothing to confirm.")),
        180 => ("/v1/search", RouteGuard::NotGuarded("Read-only: returns data and mutates no state, so there is nothing to confirm.")),
        181 => ("/v1/search/status", RouteGuard::NotGuarded("Read-only: returns data and mutates no state, so there is nothing to confirm.")),
        182 => {
            let s: &'static [ConfirmationAction] = &[ConfirmationAction::SearchRebuild];
            assert(s@ =~= seq![ConfirmationAction::SearchRebuild]);
            ("/v1/search/rebuild", RouteGuard::Actions(s))
        },
        183 => {
            let s: &'static [ConfirmationAction] = &[ConfirmationAction::SearchPause];
            assert(s@ =~= seq![ConfirmationAction::SearchPause]);
            ("/v1/search/pause", RouteGuard::Actions(s))
        },
        184 => ("/v1/search/resume", RouteGuard::NotGuarded("Lifts a pause; the safe direction. `search/pause` carries the floor.")),
        185 => ("/v1/notifications/triage", RouteGuard::NotGuarded("Read-only: returns data and mutates no state, so there is nothing to confirm.")),
        186 => ("/v1/notifications/triage/{id}", RouteGuard::NotGuarded("Sets one notification's read/dismissed marker.")),
        187 => ("/v1/me/preferences", RouteGuard::NotGuarded("Replaces the caller's own UI preferences. Cosmetic; no authority, no evidentiary state.")),
        188 => ("/v1/backup", RouteGuard::NotGuarded("Takes a hot backup — additive, destroys nothing.")),
        189 => {
            let s: &'static [ConfirmationAction] = &[ConfirmationAction::SettingsReplace, ConfirmationAction::EntityTypeDisable];
            assert(s@ =~= seq![ConfirmationAction::SettingsReplace, ConfirmationAction::EntityTypeDisable]);
            ("/v1/settings", RouteGuard::Actions(s))
        },
        190 => ("/v1/search/settings", RouteGuard::NotGuarded("Replaces only the non-secret search-worker slice; no other configuration is reachable from it and nothing is destroyed.")),
        191 => ("/v1/settings/email/status", RouteGuard::NotGuarded("Read-only: returns data and mutates no state, so there is nothing to confirm.")),
        192 => {
            let s: &'static [ConfirmationAction] = &[ConfirmationAction::EmailPasswordDelete];
            assert(s@ =~= seq![ConfirmationAction::EmailPasswordDelete]);
            ("/v1/settings/email/password", RouteGuard::Actions(s))
        },
        193 => ("/v1/settings/email/test", RouteGuard::NotGuarded("Creates a new record; nothing existing is altered or removed.")),
        194 => ("/v1/settings/email/deliveries", RouteGuard::NotGuarded("Read-only: returns data and mutates no state, so there is nothing to confirm.")),
        195 => ("/v1/settings/email/deliveries/{id}/resend", RouteGuard::NotGuarded("Re-sends only messages fully derivable from durable non-secret state; token-bearing mail is refused with `422`.")),
        196 => ("/v1/platform/services", RouteGuard::NotGuarded("Read-only: returns data and mutates no state, so there is nothing to confirm.")),
        197 => {
            let s: &'static [ConfirmationAction] = &[ConfirmationAction::PlatformEnvReplace];
            assert(s@ =~= seq![ConfirmationAction::PlatformEnvReplace]);
            ("/v1/platform/env", RouteGuard::Actions(s))
        },
        198 => ("/v1/platform/logs", RouteGuard::NotGuarded("Read-only: returns data and mutates no state, so there is nothing to confirm.")),
        199 => ("/v1/platform/logs/forwarded", RouteGuard::NotGuarded("Ingests one supervisor-forwarded structured log line. Append-only operational telemetry; no domain state.")),
        200 => {
            let s: &'static [ConfirmationAction] = &[ConfirmationAction::PlatformServiceControl];
            assert(s@ =~= seq![ConfirmationAction::PlatformServiceControl]);
            ("/v1/platform/services/{id}/actions/{action}", RouteGuard::Actions(s))
        },
        201 => ("/v1/cae", RouteGuard::NotGuarded("Read-only: returns data and mutates no state, so there is nothing to confirm.")),
        202 => ("/v1/cae/refresh", RouteGuard::NotGuarded("Swaps the CAE catalog only when the fetched one supersedes the active one; the previous cache is preserved on failure.")),
        203 => ("/v1/cae/updates", RouteGuard::NotGuarded("Read-only: returns data and mutates no state, so there is nothing to confirm.")),
        204 => ("/v1/cae/sections", RouteGuard::NotGuarded("Read-only: returns data and mutates no state, so there is nothing to confirm.")),
        205 => ("/v1/cae/{code}", RouteGuard::NotGuarded("Read-only: returns data and mutates no state, so there is nothing to confirm.")),
        206 => ("/v1/cae/{code}/children", RouteGuard::NotGuarded("Read-only: returns data and mutates no state, so there is nothing to confirm.")),
        207 => ("/v1/trust/status", RouteGuard::NotGuarded("Read-only: returns data and mutates no state, so there is nothing to confirm.")),
        208 => {
            let s: &'static [ConfirmationAction] = &[ConfirmationAction::TrustListRefresh];
            assert(s@ =~= seq![ConfirmationAction::TrustListRefresh]);
            ("/v1/trust/refresh", RouteGuard::Actions(s))
        },
        209 => ("/v1/trust/catalog", RouteGuard::NotGuarded("Read-only: returns data and mutates no state, so there is nothing to confirm.")),
        210 => ("/v1/trust/tsa", RouteGuard::NotGuarded("Read-only: returns data and mutates no state, so there is nothing to confirm.")),
        211 => ("/v1/trust/providers/{id}", RouteGuard::NotGuarded("Read-only: returns data and mutates no state, so there is nothing to confirm.")),
        212 => ("/v1/trust/services/{id}", RouteGuard::NotGuarded("Read-only: returns data and mutates no state, so there is nothing to confirm.")),
        213 => ("/v1/law", RouteGuard::NotGuarded("Read-only: returns data and mutates no state, so there is nothing to confirm.")),
        214 => ("/v1/law/citations/resolve", RouteGuard::NotGuarded("Read-only preview/validation; persists nothing.")),
        215 => ("/v1/law/corpus", RouteGuard::NotGuarded("Read-only: returns data and mutates no state, so there is nothing to confirm.")),
        216 => ("/v1/law/corpus/search", RouteGuard::NotGuarded("Read-only: returns data and mutates no state, so there is nothing to confirm.")),
        217 => ("/v1/law/corpus/{diploma}", RouteGuard::NotGuarded("Read-only: returns data and mutates no state, so there is nothing to confirm.")),
        218 => ("/v1/law/corpus/{diploma}/{article}", RouteGuard::NotGuarded("Read-only: returns data and mutates no state, so there is nothing to confirm.")),
        219 => ("/v1/law/{id}/fetch", RouteGuard::NotGuarded("Downloads a pinned PDF into the archive; additive.")),
        220 => {
            let s: &'static [ConfirmationAction] = &[ConfirmationAction::LawPdfDelete];
            assert(s@ =~= seq![ConfirmationAction::LawPdfDelete]);
            ("/v1/law/{id}/pdf", RouteGuard::Actions(s))
        },
        221 => ("/v1/users", RouteGuard::NotGuarded("Creates a new record; nothing existing is altered or removed.")),
        222 => ("/v1/users/page", RouteGuard::NotGuarded("Read-only: returns data and mutates no state, so there is nothing to confirm.")),
        223 => {
            let s: &'static [ConfirmationAction] = &[ConfirmationAction::UserDisable];
            assert(s@ =~= seq![ConfirmationAction::UserDisable]);
            ("/v1/users/{id}", RouteGuard::Actions(s))
        },
        224 => ("/v1/users/{id}/secret", RouteGuard::NotGuarded("`users::set_secret` already demands the target's CURRENT password or a valid recovery phrase for every cross-user reset, and the current password for a self change. That is a stronger, target-bound proof than this policy's actor-bound step-up; adding one would be redundant friction.")),
        225 => ("/v1/users/{id}/attestation-key", RouteGuard::NotGuarded("Same target-bound proof as `/v1/users/{id}/secret`: generation requires the target's current password, removal requires the password or a recovery phrase.")),
        226 => ("/v1/users/{id}/recovery", RouteGuard::NotGuarded("Issuing/rotating a recovery phrase is gated by the same target-bound credential proof as `set_secret`, and it grants no authority — it replaces one reset credential with another.")),
        227 => ("/v1/users/{id}/two-factor", RouteGuard::NotGuarded("Read-only: returns data and mutates no state, so there is nothing to confirm.")),
        228 => ("/v1/users/{id}/two-factor/totp/enrol", RouteGuard::NotGuarded("Begins a self-only enrolment that is inert until confirmed; a confirmed factor is never silently swapped out (re-enrol over a confirmed factor is refused).")),
        229 => ("/v1/users/{id}/two-factor/totp/confirm", RouteGuard::NotGuarded("Activates a factor the user just proved a live code for — the safe direction.")),
        230 => {
            let s: &'static [ConfirmationAction] = &[ConfirmationAction::TwoFactorDisable];
            assert(s@ =~= seq![ConfirmationAction::TwoFactorDisable]);
            ("/v1/users/{id}/two-factor/totp", RouteGuard::Actions(s))
        },
        231 => {
            let s: &'static [ConfirmationAction] = &[ConfirmationAction::TwoFactorBackupCodesRegenerate];
            assert(s@ =~= seq![ConfirmationAction::TwoFactorBackupCodesRegenerate]);
            ("/v1/users/{id}/two-factor/backup-codes", RouteGuard::Actions(s))
        },
        232 => ("/v1/users/{id}/passkeys", RouteGuard::NotGuarded("GET is read-only. POST completes an enrolment the user has just proved by touching their own authenticator, which is the safe direction and is already the strongest proof available — a confirmation dialog on top would add friction without adding assurance.")),
        233 => ("/v1/users/{id}/passkeys/options", RouteGuard::NotGuarded("Mints a registration challenge and nothing else: it stores no credential, and the ceremony it begins is worthless without the authenticator.")),
        234 => ("/v1/users/{id}/passkeys/{credential_id}", RouteGuard::NotGuarded("Removing a passkey already demands step-up re-auth in the handler, and the account-lifecycle guard refuses the removal outright if it would leave the account unable to sign in or unable to be recovered. That is a target-bound credential proof plus a fail-closed invariant — a stricter pair than this policy's actor-bound confirmation, and adding one would be redundant friction on the one screen where a user is already being careful.")),
        235 => ("/v1/reauth/passkey/options", RouteGuard::NotGuarded("Mints a re-authentication challenge. Requiring a confirmation to obtain the means of confirming is a loop; the challenge grants nothing and is redeemable only by the acting user's own credential.")),
        236 => ("/v1/privacy/users/{id}/export", RouteGuard::NotGuarded("Read-only: returns data and mutates no state, so there is nothing to confirm.")),
        237 => ("/v1/privacy/users/{id}/dsr-requests", RouteGuard::NotGuarded("Creates a new record; nothing existing is altered or removed.")),
        238 => ("/v1/privacy/users/{user_id}/dsr-requests/{request_id}/complete", RouteGuard::NotGuarded("Creates a new record; nothing existing is altered or removed.")),
        239 => ("/v1/privacy/users/{user_id}/dsr-requests/{request_id}/erasure/preflight", RouteGuard::NotGuarded("Creates a new record; nothing existing is altered or removed.")),
        240 => ("/v1/privacy/users/{user_id}/dsr-requests/{request_id}/erasure/approve", RouteGuard::NotGuarded("The dual-control approval is a stronger gate than a confirmation: the approver must be a DISTINCT principal from the requester, echo the subject id, acknowledge the carve-outs, and match a freshly recomputed digest. Nothing is destroyed here; `erasure/execute` carries the T3 floor.")),
        241 => {
            let s: &'static [ConfirmationAction] = &[ConfirmationAction::PrivacyErasureExecute];
            assert(s@ =~= seq![ConfirmationAction::PrivacyErasureExecute]);
            ("/v1/privacy/users/{user_id}/dsr-requests/{request_id}/erasure/execute", RouteGuard::Actions(s))
        },
        242 => ("/v1/privacy/users/{user_id}/dsr-requests/{request_id}/rectification", RouteGuard::NotGuarded("Appends a rectification note; never modifies a sealed or signed payload.")),
        243 => ("/v1/privacy/users/{user_id}/dsr-requests/{request_id}/restriction", RouteGuard::NotGuarded("Appends a restriction marker; never modifies a sealed or signed payload.")),
        244 => ("/v1/privacy/dsr-requests/{id}", RouteGuard::NotGuarded("Updates an editable register record in place; no authority and no evidentiary state is removed.")),
        245 => ("/v1/privacy/dsr-requests/{id}/complete", RouteGuard::NotGuarded("Creates a new record; nothing existing is altered or removed.")),
        246 => ("/v1/privacy/processors", RouteGuard::NotGuarded("Creates a new record; nothing existing is altered or removed.")),
        247 => ("/v1/privacy/processors/{id}", RouteGuard::NotGuarded("Updates an editable register record in place; no authority and no evidentiary state is removed.")),
        248 => ("/v1/privacy/dpia-template", RouteGuard::NotGuarded("GET is read-only. PUT replaces the operator's own guidance model and DELETE returns to the model shipped with the build; both are ledger-audited, neither touches a register record, and no sealed, signed or evidentiary state is altered or removed. The ledger retains the payload of every prior version, so a reset destroys nothing that was recorded.")),
        249 => ("/v1/privacy/dpias", RouteGuard::NotGuarded("Creates a new record; nothing existing is altered or removed.")),
        250 => ("/v1/privacy/dpias/{id}", RouteGuard::NotGuarded("Updates an editable register record in place; no authority and no evidentiary state is removed.")),
        251 => ("/v1/privacy/breach-playbooks", RouteGuard::NotGuarded("Creates a new record; nothing existing is altered or removed.")),
        252 => ("/v1/privacy/breach-playbooks/{id}", RouteGuard::NotGuarded("Updates an editable register record in place; no authority and no evidentiary state is removed.")),
        253 => ("/v1/privacy/transfer-controls", RouteGuard::NotGuarded("Creates a new record; nothing existing is altered or removed.")),
        254 => ("/v1/privacy/transfer-controls/{id}", RouteGuard::NotGuarded("Updates an editable register record in place; no authority and no evidentiary state is removed.")),
        255 => ("/v1/privacy/retention-policies", RouteGuard::NotGuarded("Creates a new record; nothing existing is altered or removed.")),
        256 => ("/v1/privacy/retention-policies/dry-run", RouteGuard::NotGuarded("Read-only preview/validation; persists nothing.")),
        257 => ("/v1/privacy/retention-due-candidates", RouteGuard::NotGuarded("Read-only: returns data and mutates no state, so there is nothing to confirm.")),
        258 => ("/v1/privacy/retention-due-candidates/{candidate_id}/resolution", RouteGuard::NotGuarded("Records evidence-only disposition; executes no disposal.")),
        259 => ("/v1/privacy/retention-candidate-resolutions", RouteGuard::NotGuarded("Read-only: returns data and mutates no state, so there is nothing to confirm.")),
        260 => ("/v1/privacy/retention-executions", RouteGuard::NotGuarded("Read-only: returns data and mutates no state, so there is nothing to confirm.")),
        261 => ("/v1/privacy/retention-executions/{id}/review-closure", RouteGuard::NotGuarded("Closes operator review evidence; executes no disposal.")),
        262 => ("/v1/privacy/retention-policies/{id}", RouteGuard::NotGuarded("Updates an editable register record in place; no authority and no evidentiary state is removed.")),
        263 => ("/v1/api-keys", RouteGuard::NotGuarded("Creates a new record; nothing existing is altered or removed.")),
        264 => {
            let s: &'static [ConfirmationAction] = &[ConfirmationAction::ApiKeyRevoke];
            assert(s@ =~= seq![ConfirmationAction::ApiKeyRevoke]);
            ("/v1/api-keys/{id}", RouteGuard::Actions(s))
        },
        265 => {
            let s: &'static [ConfirmationAction] = &[ConfirmationAction::ApiKeyRotate];
            assert(s@ =~= seq![ConfirmationAction::ApiKeyRotate]);
            ("/v1/api-keys/{id}/rotate", RouteGuard::Actions(s))
        },
        266 => ("/v1/ledger/attestations/{seq}", RouteGuard::NotGuarded("Read-only: returns data and mutates no state, so there is nothing to confirm.")),
        267 => ("/v1/roles", RouteGuard::NotGuarded("Creates a new record; nothing existing is altered or removed.")),
        268 => {
            let s: &'static [ConfirmationAction] = &[ConfirmationAction::RolePermissionChange, ConfirmationAction::RoleDelete];
            assert(s@ =~= seq![ConfirmationAction::RolePermissionChange, ConfirmationAction::RoleDelete]);
            ("/v1/roles/{id}", RouteGuard::Actions(s))
        },
        269 => {
            let s: &'static [ConfirmationAction] = &[ConfirmationAction::RoleSeededReconciliation];
            assert(s@ =~= seq![ConfirmationAction::RoleSeededReconciliation]);
            ("/v1/roles/{id}/seeded-drift-reconciliation", RouteGuard::Actions(s))
        },
        270 => ("/v1/permissions", RouteGuard::NotGuarded("Read-only: returns data and mutates no state, so there is nothing to confirm.")),
        271 => ("/v1/confirmation-policy", RouteGuard::NotGuarded("Read-only: returns the policy shape itself (floor + effective per action) and no instance data. Guarding the endpoint that tells the UI what to guard would be circular.")),
        272 => {
            let s: &'static [ConfirmationAction] = &[ConfirmationAction::RoleAssign, ConfirmationAction::RoleUnassign];
            assert(s@ =~= seq![ConfirmationAction::RoleAssign, ConfirmationAction::RoleUnassign]);
            ("/v1/users/{id}/roles", RouteGuard::Actions(s))
        },
        273 => ("/v1/delegations", RouteGuard::NotGuarded("Granting a delegation is bounded by the delegation invariant (every permission must be held via a role at that scope), and it is revocable and suspendable.")),
        274 => {
            let s: &'static [ConfirmationAction] = &[ConfirmationAction::DelegationRevoke];
            assert(s@ =~= seq![ConfirmationAction::DelegationRevoke]);
            ("/v1/delegations/{id}", RouteGuard::Actions(s))
        },
        275 => {
            let s: &'static [ConfirmationAction] = &[ConfirmationAction::DelegationSuspend];
            assert(s@ =~= seq![ConfirmationAction::DelegationSuspend]);
            ("/v1/delegations/{id}/suspend", RouteGuard::Actions(s))
        },
        276 => ("/v1/delegations/{id}/resume", RouteGuard::NotGuarded("Lifts a suspension, which is the safe direction: it restores only whatever the funções grant now, and an expired delegation stays spent.")),
        277 => ("/v1/session/permissions", RouteGuard::NotGuarded("Read-only: returns data and mutates no state, so there is nothing to confirm.")),
        278 => ("/v1/sessions", RouteGuard::NotGuarded("Read-only: returns data and mutates no state, so there is nothing to confirm.")),
        279 => {
            let s: &'static [ConfirmationAction] = &[ConfirmationAction::SessionRevoke];
            assert(s@ =~= seq![ConfirmationAction::SessionRevoke]);
            ("/v1/sessions/{session_id}", RouteGuard::Actions(s))
        },
        280 => {
            let s: &'static [ConfirmationAction] = &[ConfirmationAction::SessionRevokeOthers];
            assert(s@ =~= seq![ConfirmationAction::SessionRevokeOthers]);
            ("/v1/sessions/revoke-others", RouteGuard::Actions(s))
        },
        281 => ("/v1/auth/invites", RouteGuard::NotGuarded("Issues an invitation bounded by `user.invite`@scope plus the role subset invariant; it grants no authority the actor does not already hold and can be left unaccepted.")),
        282 => {
            let s: &'static [ConfirmationAction] = &[ConfirmationAction::DevicePairing];
            assert(s@ =~= seq![ConfirmationAction::DevicePairing]);
            ("/v1/pairing/codes", RouteGuard::Actions(s))
        },
        283 => ("/v1/pairing/devices", RouteGuard::NotGuarded("Read-only: returns data and mutates no state, so there is nothing to confirm.")),
        284 => {
            let s: &'static [ConfirmationAction] = &[ConfirmationAction::PairingDeviceRevoke];
            assert(s@ =~= seq![ConfirmationAction::PairingDeviceRevoke]);
            ("/v1/pairing/devices/{device_id}", RouteGuard::Actions(s))
        },
        _ => ("/v1/entities", RouteGuard::NotGuarded("Creates a new record; nothing existing is altered or removed.")),
    }
}

/// `ConfirmationAction::all()` lists every action.
pub proof fn lemma_all_actions_complete(a: ConfirmationAction)
    ensures
        all_actions().contains(a),
        all_actions().len() == 64,
{
    let s = all_actions();
    match a {
        ConfirmationAction::BookClose => assert(s[0] == a),
        ConfirmationAction::TermoAberturaAdvance => assert(s[1] == a),
        ConfirmationAction::TermoAberturaOpen => assert(s[2] == a),
        ConfirmationAction::TermoEncerramentoAdvance => assert(s[3] == a),
        ConfirmationAction::TermoEncerramentoClose => assert(s[4] == a),
        ConfirmationAction::TermoWithdraw => assert(s[5] == a),
        ConfirmationAction::BookStartOver => assert(s[6] == a),
        ConfirmationAction::BookArchiveDisposal => assert(s[7] == a),
        ConfirmationAction::BookImport => assert(s[8] == a),
        ConfirmationAction::LegalHoldRelease => assert(s[9] == a),
        ConfirmationAction::CmdTestSignature => assert(s[10] == a),
        ConfirmationAction::ActSeal => assert(s[11] == a),
        ConfirmationAction::ActArchive => assert(s[12] == a),
        ConfirmationAction::ActRevert => assert(s[13] == a),
        ConfirmationAction::ActReopen => assert(s[14] == a),
        ConfirmationAction::UserDisable => assert(s[15] == a),
        ConfirmationAction::UserBulkDisable => assert(s[16] == a),
        ConfirmationAction::UserBulkRoleChange => assert(s[17] == a),
        ConfirmationAction::RoleAssign => assert(s[18] == a),
        ConfirmationAction::RoleUnassign => assert(s[19] == a),
        ConfirmationAction::RoleDelete => assert(s[20] == a),
        ConfirmationAction::RolePermissionChange => assert(s[21] == a),
        ConfirmationAction::RoleSeededReconciliation => assert(s[22] == a),
        ConfirmationAction::DelegationRevoke => assert(s[23] == a),
        ConfirmationAction::DelegationSuspend => assert(s[24] == a),
        ConfirmationAction::ApiKeyRevoke => assert(s[25] == a),
        ConfirmationAction::ApiKeyRotate => assert(s[26] == a),
        ConfirmationAction::DevicePairing => assert(s[27] == a),
        ConfirmationAction::PairingDeviceRevoke => assert(s[28] == a),
        ConfirmationAction::SessionRevoke => assert(s[29] == a),
        ConfirmationAction::SessionRevokeOthers => assert(s[30] == a),
        ConfirmationAction::TwoFactorDisable => assert(s[31] == a),
        ConfirmationAction::TwoFactorBackupCodesRegenerate => assert(s[32] == a),
        ConfirmationAction::LedgerReanchor => assert(s[33] == a),
        ConfirmationAction::LedgerRestore => assert(s[34] == a),
        ConfirmationAction::DataKeyRotation => assert(s[35] == a),
        ConfirmationAction::DataCleanupExports => assert(s[36] == a),
        ConfirmationAction::DataCleanupOperational => assert(s[37] == a),
        ConfirmationAction::PrivacyErasureExecute => assert(s[38] == a),
        ConfirmationAction::SettingsReplace => assert(s[39] == a),
        ConfirmationAction::EntityTypeDisable => assert(s[40] == a),
        ConfirmationAction::PlatformEnvReplace => assert(s[41] == a),
        ConfirmationAction::PlatformServiceControl => assert(s[42] == a),
        ConfirmationAction::TrustListRefresh => assert(s[43] == a),
        ConfirmationAction::EmailPasswordDelete => assert(s[44] == a),
        ConfirmationAction::SearchRebuild => assert(s[45] == a),
        ConfirmationAction::SearchPause => assert(s[46] == a),
        ConfirmationAction::TemplateReplace => assert(s[47] == a),
        ConfirmationAction::TemplateDelete => assert(s[48] == a),
        ConfirmationAction::TemplateVersionDelete => assert(s[49] == a),
        ConfirmationAction::TemplateVersionRestore => assert(s[50] == a),
        ConfirmationAction::TemplateLibraryArchive => assert(s[51] == a),
        ConfirmationAction::EntityArchive => assert(s[52] == a),
        ConfirmationAction::GroupArchive => assert(s[53] == a),
        ConfirmationAction::GroupEntityRemove => assert(s[54] == a),
        ConfirmationAction::RepositoryDelete => assert(s[55] == a),
        ConfirmationAction::RepositoryPolicyDelete => assert(s[56] == a),
        ConfirmationAction::ConnectorTargetArchive => assert(s[57] == a),
        ConfirmationAction::ConnectorJobCancel => assert(s[58] == a),
        ConfirmationAction::SigningCredentialDelete => assert(s[59] == a),
        ConfirmationAction::ExternalSignerInviteRevoke => assert(s[60] == a),
        ConfirmationAction::StoredCredentialSignature => assert(s[61] == a),
        ConfirmationAction::BatchSignature => assert(s[62] == a),
        ConfirmationAction::LawPdfDelete => assert(s[63] == a),
    }
}

} // verus!
