//! **The guarded-action registry.**
//!
//! Two independent axes describe an action. **Strictness** ([`ConfirmationStrictness`]) is how hard
//! it is to proceed and is ordered `Off < Confirm < ConfirmWithReauth < ConfirmWithReauthAndPhrase`.
//! **Consequence** ([`ConfirmationConsequence`]) is how the action is framed. A compile-time
//! [`ConfirmationAction::floor`] is the lowest strictness an action may ever run at; an
//! operator-configured value can raise it and never lower it ([`effective_strictness`]).
//!
//! Every operator-authenticated route carries one recorded verdict ([`guard_for_route`]), and the
//! policy endpoint's body is [`confirmation_policy`].
pub mod registry;

use std::collections::BTreeMap;

use vstd::prelude::*;

use crate::error::{ApiError, ApiErrorKind};
use crate::text::{owned, push_str, str_eq};

pub use registry::{
    action_consequence, action_floor, action_id, action_phrase, all_actions, route_guard_entry,
    lemma_all_actions_complete, route_path, route_verdict, strictness_level, strictness_rank, ConfirmationAction,
    ConfirmationConsequence, ConfirmationStrictness, GuardVerdict, RouteGuard, ROUTE_GUARD_LEN,
};

verus! {

// =================================================================================================
// Laws of the tables
// =================================================================================================

/// A typed phrase exists for an action exactly when its floor is the phrase level: a phrase floor
/// without a phrase could never be satisfied, and a phrase below that floor is never asked for.
pub proof fn lemma_phrase_exactly_for_phrase_floor(a: ConfirmationAction)
    ensures
        (action_phrase(a) is Some) <==> action_floor(a)
            == ConfirmationStrictness::ConfirmWithReauthAndPhrase,
{
}

/// **The floors by tier.** Irreversible acts (closing or starting a book over, opening a book's
/// genesis, disposal, ledger re-anchor and restore, key rotation, erasure, deleting retained
/// exports, the CMD test signature, a bulk role change) need re-authentication and a typed phrase.
/// Acts that remove access or authority or hide evidentiary state (releasing a legal hold,
/// archiving an act, bulk disabling users, deleting, changing or unassigning roles, **pairing a
/// device**, disabling the second factor, refreshing the trust list) need re-authentication. Every
/// other action needs a plain confirmation.
pub proof fn lemma_floor_tiers(a: ConfirmationAction)
    ensures
        (a == ConfirmationAction::BookClose || a == ConfirmationAction::TermoAberturaOpen
            || a == ConfirmationAction::TermoEncerramentoClose || a == ConfirmationAction::BookStartOver
            || a == ConfirmationAction::BookArchiveDisposal || a == ConfirmationAction::CmdTestSignature
            || a == ConfirmationAction::UserBulkRoleChange || a == ConfirmationAction::LedgerReanchor
            || a == ConfirmationAction::LedgerRestore || a == ConfirmationAction::DataKeyRotation
            || a == ConfirmationAction::DataCleanupExports || a == ConfirmationAction::PrivacyErasureExecute)
            <==> action_floor(a) == ConfirmationStrictness::ConfirmWithReauthAndPhrase,
        (a == ConfirmationAction::LegalHoldRelease || a == ConfirmationAction::ActArchive
            || a == ConfirmationAction::UserBulkDisable || a == ConfirmationAction::RoleUnassign
            || a == ConfirmationAction::RoleDelete || a == ConfirmationAction::RolePermissionChange
            || a == ConfirmationAction::DevicePairing || a == ConfirmationAction::TwoFactorDisable
            || a == ConfirmationAction::TrustListRefresh)
            <==> action_floor(a) == ConfirmationStrictness::ConfirmWithReauth,
        a == ConfirmationAction::DevicePairing ==> action_floor(a) == ConfirmationStrictness::ConfirmWithReauth,
{
}

/// No action is floored `Off`: `Off` is what an action's absence from the registry means.
pub proof fn lemma_no_action_floored_off(a: ConfirmationAction)
    ensures
        action_floor(a) != ConfirmationStrictness::Off,
        strictness_rank(action_floor(a)) >= 1,
{
}

/// The action whose wire id is `s`, if any: looked up by the id's length and its characters.
pub open spec fn action_of_id(s: Seq<char>) -> Option<ConfirmationAction> {
    if s.len() == 8 {
        if s == "act.seal"@ {
            Some(ConfirmationAction::ActSeal)
        } else {
            None
        }
    } else if s.len() == 10 {
        if s[6] == 'l' {
            if s == "book.close"@ {
                Some(ConfirmationAction::BookClose)
            } else {
                None
            }
        } else if s[6] == 'o' {
            if s == "act.reopen"@ {
                Some(ConfirmationAction::ActReopen)
            } else {
                None
            }
        } else if s[6] == 'v' {
            if s == "act.revert"@ {
                Some(ConfirmationAction::ActRevert)
            } else {
                None
            }
        } else {
            None
        }
    } else if s.len() == 11 {
        if s[5] == 'a' {
            if s == "role.assign"@ {
                Some(ConfirmationAction::RoleAssign)
            } else {
                None
            }
        } else if s[5] == 'd' {
            if s == "role.delete"@ {
                Some(ConfirmationAction::RoleDelete)
            } else {
                None
            }
        } else if s[5] == 'i' {
            if s == "book.import"@ {
                Some(ConfirmationAction::BookImport)
            } else {
                None
            }
        } else if s[5] == 'r' {
            if s == "act.archive"@ {
                Some(ConfirmationAction::ActArchive)
            } else {
                None
            }
        } else {
            None
        }
    } else if s.len() == 12 {
        if s[0] == 's' {
            if s == "search.pause"@ {
                Some(ConfirmationAction::SearchPause)
            } else {
                None
            }
        } else if s[0] == 'u' {
            if s == "user.disable"@ {
                Some(ConfirmationAction::UserDisable)
            } else {
                None
            }
        } else {
            None
        }
    } else if s.len() == 13 {
        if s[0] == 'd' {
            if s == "device.revoke"@ {
                Some(ConfirmationAction::PairingDeviceRevoke)
            } else {
                None
            }
        } else if s[0] == 'g' {
            if s == "group.archive"@ {
                Some(ConfirmationAction::GroupArchive)
            } else {
                None
            }
        } else if s[0] == 'r' {
            if s == "role.unassign"@ {
                Some(ConfirmationAction::RoleUnassign)
            } else {
                None
            }
        } else {
            None
        }
    } else if s.len() == 14 {
        if s[2] == 'a' {
            if s == "search.rebuild"@ {
                Some(ConfirmationAction::SearchRebuild)
            } else {
                None
            }
        } else if s[2] == 'd' {
            if s == "ledger.restore"@ {
                Some(ConfirmationAction::LedgerRestore)
            } else {
                None
            }
        } else if s[2] == 'i' {
            if s[9] == 'e' {
                if s == "api_key.revoke"@ {
                    Some(ConfirmationAction::ApiKeyRevoke)
                } else {
                    None
                }
            } else if s[9] == 'o' {
                if s == "api_key.rotate"@ {
                    Some(ConfirmationAction::ApiKeyRotate)
                } else {
                    None
                }
            } else {
                None
            }
        } else if s[2] == 'r' {
            if s == "termo.withdraw"@ {
                Some(ConfirmationAction::TermoWithdraw)
            } else {
                None
            }
        } else if s[2] == 's' {
            if s == "session.revoke"@ {
                Some(ConfirmationAction::SessionRevoke)
            } else {
                None
            }
        } else if s[2] == 't' {
            if s == "entity.archive"@ {
                Some(ConfirmationAction::EntityArchive)
            } else {
                None
            }
        } else if s[2] == 'v' {
            if s == "device.pairing"@ {
                Some(ConfirmationAction::DevicePairing)
            } else {
                None
            }
        } else if s[2] == 'w' {
            if s == "law.pdf_delete"@ {
                Some(ConfirmationAction::LawPdfDelete)
            } else {
                None
            }
        } else {
            None
        }
    } else if s.len() == 15 {
        if s[0] == 'b' {
            if s == "book.start_over"@ {
                Some(ConfirmationAction::BookStartOver)
            } else {
                None
            }
        } else if s[0] == 'l' {
            if s == "ledger.reanchor"@ {
                Some(ConfirmationAction::LedgerReanchor)
            } else {
                None
            }
        } else if s[0] == 's' {
            if s == "signature.batch"@ {
                Some(ConfirmationAction::BatchSignature)
            } else {
                None
            }
        } else if s[0] == 't' {
            if s == "template.delete"@ {
                Some(ConfirmationAction::TemplateDelete)
            } else {
                None
            }
        } else {
            None
        }
    } else if s.len() == 16 {
        if s[0] == 's' {
            if s == "settings.replace"@ {
                Some(ConfirmationAction::SettingsReplace)
            } else {
                None
            }
        } else if s[0] == 't' {
            if s == "template.replace"@ {
                Some(ConfirmationAction::TemplateReplace)
            } else {
                None
            }
        } else {
            None
        }
    } else if s.len() == 17 {
        if s[2] == 'e' {
            if s == "user.bulk_disable"@ {
                Some(ConfirmationAction::UserBulkDisable)
            } else {
                None
            }
        } else if s[2] == 'l' {
            if s == "delegation.revoke"@ {
                Some(ConfirmationAction::DelegationRevoke)
            } else {
                None
            }
        } else if s[2] == 'p' {
            if s == "repository.delete"@ {
                Some(ConfirmationAction::RepositoryDelete)
            } else {
                None
            }
        } else if s[2] == 't' {
            if s == "data.key_rotation"@ {
                Some(ConfirmationAction::DataKeyRotation)
            } else {
                None
            }
        } else {
            None
        }
    } else if s.len() == 18 {
        if s[3] == '_' {
            if s == "two_factor.disable"@ {
                Some(ConfirmationAction::TwoFactorDisable)
            } else {
                None
            }
        } else if s[3] == 'a' {
            if s == "legal_hold.release"@ {
                Some(ConfirmationAction::LegalHoldRelease)
            } else {
                None
            }
        } else if s[3] == 'e' {
            if s == "delegation.suspend"@ {
                Some(ConfirmationAction::DelegationSuspend)
            } else {
                None
            }
        } else if s[3] == 'n' {
            if s == "signature.cmd_test"@ {
                Some(ConfirmationAction::CmdTestSignature)
            } else {
                None
            }
        } else if s[3] == 's' {
            if s == "trust.list_refresh"@ {
                Some(ConfirmationAction::TrustListRefresh)
            } else {
                None
            }
        } else {
            None
        }
    } else if s.len() == 19 {
        if s[0] == 'e' {
            if s == "entity_type.disable"@ {
                Some(ConfirmationAction::EntityTypeDisable)
            } else {
                None
            }
        } else if s[0] == 'g' {
            if s == "group.entity_remove"@ {
                Some(ConfirmationAction::GroupEntityRemove)
            } else {
                None
            }
        } else if s[0] == 't' {
            if s == "termo_abertura.open"@ {
                Some(ConfirmationAction::TermoAberturaOpen)
            } else {
                None
            }
        } else {
            None
        }
    } else if s.len() == 20 {
        if s[0] == 'c' {
            if s == "connector_job.cancel"@ {
                Some(ConfirmationAction::ConnectorJobCancel)
            } else {
                None
            }
        } else if s[0] == 'd' {
            if s == "data.cleanup_exports"@ {
                Some(ConfirmationAction::DataCleanupExports)
            } else {
                None
            }
        } else if s[0] == 'p' {
            if s == "platform.env_replace"@ {
                Some(ConfirmationAction::PlatformEnvReplace)
            } else {
                None
            }
        } else {
            None
        }
    } else if s.len() == 21 {
        if s[0] == 'b' {
            if s == "book.archive_disposal"@ {
                Some(ConfirmationAction::BookArchiveDisposal)
            } else {
                None
            }
        } else if s[0] == 'e' {
            if s == "email.password_delete"@ {
                Some(ConfirmationAction::EmailPasswordDelete)
            } else {
                None
            }
        } else if s[0] == 's' {
            if s == "session.revoke_others"@ {
                Some(ConfirmationAction::SessionRevokeOthers)
            } else {
                None
            }
        } else if s[0] == 'u' {
            if s == "user.bulk_role_change"@ {
                Some(ConfirmationAction::UserBulkRoleChange)
            } else {
                None
            }
        } else {
            None
        }
    } else if s.len() == 22 {
        if s[0] == 'r' {
            if s == "role.permission_change"@ {
                Some(ConfirmationAction::RolePermissionChange)
            } else {
                None
            }
        } else if s[0] == 't' {
            if s == "termo_abertura.advance"@ {
                Some(ConfirmationAction::TermoAberturaAdvance)
            } else {
                None
            }
        } else {
            None
        }
    } else if s.len() == 23 {
        if s[0] == 'p' {
            if s == "privacy.erasure_execute"@ {
                Some(ConfirmationAction::PrivacyErasureExecute)
            } else {
                None
            }
        } else if s[0] == 't' {
            if s == "template.version_delete"@ {
                Some(ConfirmationAction::TemplateVersionDelete)
            } else {
                None
            }
        } else {
            None
        }
    } else if s.len() == 24 {
        if s[9] == '_' {
            if s == "connector_target.archive"@ {
                Some(ConfirmationAction::ConnectorTargetArchive)
            } else {
                None
            }
        } else if s[9] == 'e' {
            if s == "termo_encerramento.close"@ {
                Some(ConfirmationAction::TermoEncerramentoClose)
            } else {
                None
            }
        } else if s[9] == 'l' {
            if s == "template_library.archive"@ {
                Some(ConfirmationAction::TemplateLibraryArchive)
            } else {
                None
            }
        } else if s[9] == 'n' {
            if s == "data.cleanup_operational"@ {
                Some(ConfirmationAction::DataCleanupOperational)
            } else {
                None
            }
        } else if s[9] == 's' {
            if s == "platform.service_control"@ {
                Some(ConfirmationAction::PlatformServiceControl)
            } else {
                None
            }
        } else if s[9] == 'v' {
            if s == "template.version_restore"@ {
                Some(ConfirmationAction::TemplateVersionRestore)
            } else {
                None
            }
        } else if s[9] == 'y' {
            if s == "repository.policy_delete"@ {
                Some(ConfirmationAction::RepositoryPolicyDelete)
            } else {
                None
            }
        } else {
            None
        }
    } else if s.len() == 25 {
        if s == "signing_credential.delete"@ {
            Some(ConfirmationAction::SigningCredentialDelete)
        } else {
            None
        }
    } else if s.len() == 26 {
        if s[0] == 'r' {
            if s == "role.seeded_reconciliation"@ {
                Some(ConfirmationAction::RoleSeededReconciliation)
            } else {
                None
            }
        } else if s[0] == 't' {
            if s == "termo_encerramento.advance"@ {
                Some(ConfirmationAction::TermoEncerramentoAdvance)
            } else {
                None
            }
        } else {
            None
        }
    } else if s.len() == 27 {
        if s == "signature.stored_credential"@ {
            Some(ConfirmationAction::StoredCredentialSignature)
        } else {
            None
        }
    } else if s.len() == 29 {
        if s == "external_signer_invite.revoke"@ {
            Some(ConfirmationAction::ExternalSignerInviteRevoke)
        } else {
            None
        }
    } else if s.len() == 34 {
        if s == "two_factor.backup_codes_regenerate"@ {
            Some(ConfirmationAction::TwoFactorBackupCodesRegenerate)
        } else {
            None
        }
    } else {
        None
    }
}

proof fn lemma_id_names_its_action(a: ConfirmationAction)
    ensures
        action_of_id(action_id(a)) == Some(a),
{
    match a {
        ConfirmationAction::BookClose => {
            reveal_strlit("book.close");
        },
        ConfirmationAction::TermoAberturaAdvance => {
            reveal_strlit("termo_abertura.advance");
        },
        ConfirmationAction::TermoAberturaOpen => {
            reveal_strlit("termo_abertura.open");
        },
        ConfirmationAction::TermoEncerramentoAdvance => {
            reveal_strlit("termo_encerramento.advance");
        },
        ConfirmationAction::TermoEncerramentoClose => {
            reveal_strlit("termo_encerramento.close");
        },
        ConfirmationAction::TermoWithdraw => {
            reveal_strlit("termo.withdraw");
        },
        ConfirmationAction::BookStartOver => {
            reveal_strlit("book.start_over");
        },
        ConfirmationAction::BookArchiveDisposal => {
            reveal_strlit("book.archive_disposal");
        },
        ConfirmationAction::BookImport => {
            reveal_strlit("book.import");
        },
        ConfirmationAction::LegalHoldRelease => {
            reveal_strlit("legal_hold.release");
        },
        ConfirmationAction::CmdTestSignature => {
            reveal_strlit("signature.cmd_test");
        },
        ConfirmationAction::ActSeal => {
            reveal_strlit("act.seal");
        },
        ConfirmationAction::ActArchive => {
            reveal_strlit("act.archive");
        },
        ConfirmationAction::ActRevert => {
            reveal_strlit("act.revert");
        },
        ConfirmationAction::ActReopen => {
            reveal_strlit("act.reopen");
        },
        ConfirmationAction::UserDisable => {
            reveal_strlit("user.disable");
        },
        ConfirmationAction::UserBulkDisable => {
            reveal_strlit("user.bulk_disable");
        },
        ConfirmationAction::UserBulkRoleChange => {
            reveal_strlit("user.bulk_role_change");
        },
        ConfirmationAction::RoleAssign => {
            reveal_strlit("role.assign");
        },
        ConfirmationAction::RoleUnassign => {
            reveal_strlit("role.unassign");
        },
        ConfirmationAction::RoleDelete => {
            reveal_strlit("role.delete");
        },
        ConfirmationAction::RolePermissionChange => {
            reveal_strlit("role.permission_change");
        },
        ConfirmationAction::RoleSeededReconciliation => {
            reveal_strlit("role.seeded_reconciliation");
        },
        ConfirmationAction::DelegationRevoke => {
            reveal_strlit("delegation.revoke");
        },
        ConfirmationAction::DelegationSuspend => {
            reveal_strlit("delegation.suspend");
        },
        ConfirmationAction::ApiKeyRevoke => {
            reveal_strlit("api_key.revoke");
        },
        ConfirmationAction::ApiKeyRotate => {
            reveal_strlit("api_key.rotate");
        },
        ConfirmationAction::DevicePairing => {
            reveal_strlit("device.pairing");
        },
        ConfirmationAction::PairingDeviceRevoke => {
            reveal_strlit("device.revoke");
        },
        ConfirmationAction::SessionRevoke => {
            reveal_strlit("session.revoke");
        },
        ConfirmationAction::SessionRevokeOthers => {
            reveal_strlit("session.revoke_others");
        },
        ConfirmationAction::TwoFactorDisable => {
            reveal_strlit("two_factor.disable");
        },
        ConfirmationAction::TwoFactorBackupCodesRegenerate => {
            reveal_strlit("two_factor.backup_codes_regenerate");
        },
        ConfirmationAction::LedgerReanchor => {
            reveal_strlit("ledger.reanchor");
        },
        ConfirmationAction::LedgerRestore => {
            reveal_strlit("ledger.restore");
        },
        ConfirmationAction::DataKeyRotation => {
            reveal_strlit("data.key_rotation");
        },
        ConfirmationAction::DataCleanupExports => {
            reveal_strlit("data.cleanup_exports");
        },
        ConfirmationAction::DataCleanupOperational => {
            reveal_strlit("data.cleanup_operational");
        },
        ConfirmationAction::PrivacyErasureExecute => {
            reveal_strlit("privacy.erasure_execute");
        },
        ConfirmationAction::SettingsReplace => {
            reveal_strlit("settings.replace");
        },
        ConfirmationAction::EntityTypeDisable => {
            reveal_strlit("entity_type.disable");
        },
        ConfirmationAction::PlatformEnvReplace => {
            reveal_strlit("platform.env_replace");
        },
        ConfirmationAction::PlatformServiceControl => {
            reveal_strlit("platform.service_control");
        },
        ConfirmationAction::TrustListRefresh => {
            reveal_strlit("trust.list_refresh");
        },
        ConfirmationAction::EmailPasswordDelete => {
            reveal_strlit("email.password_delete");
        },
        ConfirmationAction::SearchRebuild => {
            reveal_strlit("search.rebuild");
        },
        ConfirmationAction::SearchPause => {
            reveal_strlit("search.pause");
        },
        ConfirmationAction::TemplateReplace => {
            reveal_strlit("template.replace");
        },
        ConfirmationAction::TemplateDelete => {
            reveal_strlit("template.delete");
        },
        ConfirmationAction::TemplateVersionDelete => {
            reveal_strlit("template.version_delete");
        },
        ConfirmationAction::TemplateVersionRestore => {
            reveal_strlit("template.version_restore");
        },
        ConfirmationAction::TemplateLibraryArchive => {
            reveal_strlit("template_library.archive");
        },
        ConfirmationAction::EntityArchive => {
            reveal_strlit("entity.archive");
        },
        ConfirmationAction::GroupArchive => {
            reveal_strlit("group.archive");
        },
        ConfirmationAction::GroupEntityRemove => {
            reveal_strlit("group.entity_remove");
        },
        ConfirmationAction::RepositoryDelete => {
            reveal_strlit("repository.delete");
        },
        ConfirmationAction::RepositoryPolicyDelete => {
            reveal_strlit("repository.policy_delete");
        },
        ConfirmationAction::ConnectorTargetArchive => {
            reveal_strlit("connector_target.archive");
        },
        ConfirmationAction::ConnectorJobCancel => {
            reveal_strlit("connector_job.cancel");
        },
        ConfirmationAction::SigningCredentialDelete => {
            reveal_strlit("signing_credential.delete");
        },
        ConfirmationAction::ExternalSignerInviteRevoke => {
            reveal_strlit("external_signer_invite.revoke");
        },
        ConfirmationAction::StoredCredentialSignature => {
            reveal_strlit("signature.stored_credential");
        },
        ConfirmationAction::BatchSignature => {
            reveal_strlit("signature.batch");
        },
        ConfirmationAction::LawPdfDelete => {
            reveal_strlit("law.pdf_delete");
        },
    }
}

/// **Wire ids are unique**: two different actions never share a wire id, so the settings map and the
/// policy endpoint can key on it.
pub proof fn lemma_wire_ids_are_distinct(a: ConfirmationAction, b: ConfirmationAction)
    requires
        a != b,
    ensures
        action_id(a) != action_id(b),
{
    lemma_id_names_its_action(a);
    lemma_id_names_its_action(b);
}

/// How many of the first `n` actions (in declaration order) are floored at `level`.
pub open spec fn floor_count(level: ConfirmationStrictness, n: int) -> nat
    decreases n,
{
    if n <= 0 || n > all_actions().len() {
        0
    } else {
        floor_count(level, n - 1) + if action_floor(all_actions()[n - 1]) == level {
            1nat
        } else {
            0nat
        }
    }
}

proof fn lemma_floor_count_reaches(level: ConfirmationStrictness, i: int, n: int)
    requires
        0 <= i < n <= all_actions().len(),
        action_floor(all_actions()[i]) == level,
    ensures
        floor_count(level, n) >= 1,
    decreases n,
{
    if n - 1 > i {
        lemma_floor_count_reaches(level, i, n - 1);
    }
}

proof fn lemma_floor_count_off(n: int)
    ensures
        floor_count(ConfirmationStrictness::Off, n) == 0,
    decreases n,
{
    if n > 0 && n <= all_actions().len() {
        lemma_floor_count_off(n - 1);
        lemma_no_action_floored_off(all_actions()[n - 1]);
    }
}

/// **The floors are not uniform**: actions sit at three distinct floors, none at `Off`, and fewer
/// than a third of them demand a typed phrase, so the phrase keeps its weight where it is asked for.
pub proof fn lemma_floors_are_not_uniform()
    ensures
        floor_count(ConfirmationStrictness::Confirm, all_actions().len() as int) >= 1,
        floor_count(ConfirmationStrictness::ConfirmWithReauth, all_actions().len() as int) >= 1,
        floor_count(ConfirmationStrictness::ConfirmWithReauthAndPhrase, all_actions().len() as int) >= 1,
        floor_count(ConfirmationStrictness::Off, all_actions().len() as int) == 0,
        floor_count(ConfirmationStrictness::ConfirmWithReauthAndPhrase, all_actions().len() as int) * 3
            < all_actions().len(),
{
    lemma_all_actions_complete(ConfirmationAction::BookClose);
    lemma_floor_count_reaches(ConfirmationStrictness::ConfirmWithReauthAndPhrase, 0, 64);
    lemma_floor_count_reaches(ConfirmationStrictness::Confirm, 1, 64);
    lemma_floor_count_reaches(ConfirmationStrictness::ConfirmWithReauth, 9, 64);
    lemma_floor_count_off(64);
    assert(floor_count(ConfirmationStrictness::ConfirmWithReauthAndPhrase, 0) == 0);
    assert(floor_count(ConfirmationStrictness::ConfirmWithReauthAndPhrase, 1) == 1);
    assert(floor_count(ConfirmationStrictness::ConfirmWithReauthAndPhrase, 2) == 1);
    assert(floor_count(ConfirmationStrictness::ConfirmWithReauthAndPhrase, 3) == 2);
    assert(floor_count(ConfirmationStrictness::ConfirmWithReauthAndPhrase, 4) == 2);
    assert(floor_count(ConfirmationStrictness::ConfirmWithReauthAndPhrase, 5) == 3);
    assert(floor_count(ConfirmationStrictness::ConfirmWithReauthAndPhrase, 6) == 3);
    assert(floor_count(ConfirmationStrictness::ConfirmWithReauthAndPhrase, 7) == 4);
    assert(floor_count(ConfirmationStrictness::ConfirmWithReauthAndPhrase, 8) == 5);
    assert(floor_count(ConfirmationStrictness::ConfirmWithReauthAndPhrase, 9) == 5);
    assert(floor_count(ConfirmationStrictness::ConfirmWithReauthAndPhrase, 10) == 5);
    assert(floor_count(ConfirmationStrictness::ConfirmWithReauthAndPhrase, 11) == 6);
    assert(floor_count(ConfirmationStrictness::ConfirmWithReauthAndPhrase, 12) == 6);
    assert(floor_count(ConfirmationStrictness::ConfirmWithReauthAndPhrase, 13) == 6);
    assert(floor_count(ConfirmationStrictness::ConfirmWithReauthAndPhrase, 14) == 6);
    assert(floor_count(ConfirmationStrictness::ConfirmWithReauthAndPhrase, 15) == 6);
    assert(floor_count(ConfirmationStrictness::ConfirmWithReauthAndPhrase, 16) == 6);
    assert(floor_count(ConfirmationStrictness::ConfirmWithReauthAndPhrase, 17) == 6);
    assert(floor_count(ConfirmationStrictness::ConfirmWithReauthAndPhrase, 18) == 7);
    assert(floor_count(ConfirmationStrictness::ConfirmWithReauthAndPhrase, 19) == 7);
    assert(floor_count(ConfirmationStrictness::ConfirmWithReauthAndPhrase, 20) == 7);
    assert(floor_count(ConfirmationStrictness::ConfirmWithReauthAndPhrase, 21) == 7);
    assert(floor_count(ConfirmationStrictness::ConfirmWithReauthAndPhrase, 22) == 7);
    assert(floor_count(ConfirmationStrictness::ConfirmWithReauthAndPhrase, 23) == 7);
    assert(floor_count(ConfirmationStrictness::ConfirmWithReauthAndPhrase, 24) == 7);
    assert(floor_count(ConfirmationStrictness::ConfirmWithReauthAndPhrase, 25) == 7);
    assert(floor_count(ConfirmationStrictness::ConfirmWithReauthAndPhrase, 26) == 7);
    assert(floor_count(ConfirmationStrictness::ConfirmWithReauthAndPhrase, 27) == 7);
    assert(floor_count(ConfirmationStrictness::ConfirmWithReauthAndPhrase, 28) == 7);
    assert(floor_count(ConfirmationStrictness::ConfirmWithReauthAndPhrase, 29) == 7);
    assert(floor_count(ConfirmationStrictness::ConfirmWithReauthAndPhrase, 30) == 7);
    assert(floor_count(ConfirmationStrictness::ConfirmWithReauthAndPhrase, 31) == 7);
    assert(floor_count(ConfirmationStrictness::ConfirmWithReauthAndPhrase, 32) == 7);
    assert(floor_count(ConfirmationStrictness::ConfirmWithReauthAndPhrase, 33) == 7);
    assert(floor_count(ConfirmationStrictness::ConfirmWithReauthAndPhrase, 34) == 8);
    assert(floor_count(ConfirmationStrictness::ConfirmWithReauthAndPhrase, 35) == 9);
    assert(floor_count(ConfirmationStrictness::ConfirmWithReauthAndPhrase, 36) == 10);
    assert(floor_count(ConfirmationStrictness::ConfirmWithReauthAndPhrase, 37) == 11);
    assert(floor_count(ConfirmationStrictness::ConfirmWithReauthAndPhrase, 38) == 11);
    assert(floor_count(ConfirmationStrictness::ConfirmWithReauthAndPhrase, 39) == 12);
    assert(floor_count(ConfirmationStrictness::ConfirmWithReauthAndPhrase, 40) == 12);
    assert(floor_count(ConfirmationStrictness::ConfirmWithReauthAndPhrase, 41) == 12);
    assert(floor_count(ConfirmationStrictness::ConfirmWithReauthAndPhrase, 42) == 12);
    assert(floor_count(ConfirmationStrictness::ConfirmWithReauthAndPhrase, 43) == 12);
    assert(floor_count(ConfirmationStrictness::ConfirmWithReauthAndPhrase, 44) == 12);
    assert(floor_count(ConfirmationStrictness::ConfirmWithReauthAndPhrase, 45) == 12);
    assert(floor_count(ConfirmationStrictness::ConfirmWithReauthAndPhrase, 46) == 12);
    assert(floor_count(ConfirmationStrictness::ConfirmWithReauthAndPhrase, 47) == 12);
    assert(floor_count(ConfirmationStrictness::ConfirmWithReauthAndPhrase, 48) == 12);
    assert(floor_count(ConfirmationStrictness::ConfirmWithReauthAndPhrase, 49) == 12);
    assert(floor_count(ConfirmationStrictness::ConfirmWithReauthAndPhrase, 50) == 12);
    assert(floor_count(ConfirmationStrictness::ConfirmWithReauthAndPhrase, 51) == 12);
    assert(floor_count(ConfirmationStrictness::ConfirmWithReauthAndPhrase, 52) == 12);
    assert(floor_count(ConfirmationStrictness::ConfirmWithReauthAndPhrase, 53) == 12);
    assert(floor_count(ConfirmationStrictness::ConfirmWithReauthAndPhrase, 54) == 12);
    assert(floor_count(ConfirmationStrictness::ConfirmWithReauthAndPhrase, 55) == 12);
    assert(floor_count(ConfirmationStrictness::ConfirmWithReauthAndPhrase, 56) == 12);
    assert(floor_count(ConfirmationStrictness::ConfirmWithReauthAndPhrase, 57) == 12);
    assert(floor_count(ConfirmationStrictness::ConfirmWithReauthAndPhrase, 58) == 12);
    assert(floor_count(ConfirmationStrictness::ConfirmWithReauthAndPhrase, 59) == 12);
    assert(floor_count(ConfirmationStrictness::ConfirmWithReauthAndPhrase, 60) == 12);
    assert(floor_count(ConfirmationStrictness::ConfirmWithReauthAndPhrase, 61) == 12);
    assert(floor_count(ConfirmationStrictness::ConfirmWithReauthAndPhrase, 62) == 12);
    assert(floor_count(ConfirmationStrictness::ConfirmWithReauthAndPhrase, 63) == 12);
    assert(floor_count(ConfirmationStrictness::ConfirmWithReauthAndPhrase, 64) == 12);
}

// =================================================================================================
// Route -> verdict
// =================================================================================================

/// Whether some registry entry is recorded for `path`.
pub open spec fn route_registered(path: Seq<char>) -> bool {
    exists|i: int| 0 <= i < ROUTE_GUARD_LEN && route_path(i) == path
}

/// Look up the verdict for a router path: that of the first registry entry for `path`, or `None`
/// when the registry holds no entry for it.
pub fn guard_for_route(path: &str) -> (r: Option<RouteGuard>)
    ensures
        match r {
            Some(g) => exists|i: int|
                0 <= i < ROUTE_GUARD_LEN && route_path(i) == path@ && g@ == route_verdict(i) && (
                forall|j: int| 0 <= j < i ==> route_path(j) != path@),
            None => !route_registered(path@),
        },
        path@ == "/v1/signature/cmd/test-signature/initiate"@ || path@
            == "/v1/signature/cmd/test-signature/confirm"@ ==> (r matches Some(g) && verdict_gates(
            g@,
            ConfirmationAction::CmdTestSignature,
        )),
{
    proof {
        lemma_cmd_test_signature_steps_are_gated(0);
    }
    let mut i: usize = 0;
    while i < ROUTE_GUARD_LEN
        invariant
            0 <= i <= ROUTE_GUARD_LEN,
            forall|j: int| 0 <= j < i ==> route_path(j) != path@,
        decreases ROUTE_GUARD_LEN - i,
    {
        let entry = route_guard_entry(i);
        if str_eq(entry.0, path) {
            proof {
                lemma_cmd_test_signature_steps_are_gated(i as int);
            }
            return Some(entry.1);
        }
        i += 1;
    }
    None
}

/// Whether a verdict gates on `a`.
pub open spec fn verdict_gates(v: GuardVerdict, a: ConfirmationAction) -> bool {
    match v {
        GuardVerdict::Actions(acts) => acts.contains(a),
        _ => false,
    }
}

/// **Both steps of the CMD test signature are gated on it**: the routes that initiate the test and
/// that confirm it (the step at which a real qualified signature comes into existence) are each
/// registered, and whatever entry the registry holds for either path gates on
/// `CmdTestSignature`.
pub proof fn lemma_cmd_test_signature_steps_are_gated(i: int)
    ensures
        route_registered("/v1/signature/cmd/test-signature/initiate"@),
        route_registered("/v1/signature/cmd/test-signature/confirm"@),
        0 <= i < ROUTE_GUARD_LEN && (route_path(i) == "/v1/signature/cmd/test-signature/initiate"@
            || route_path(i) == "/v1/signature/cmd/test-signature/confirm"@) ==> verdict_gates(
            route_verdict(i),
            ConfirmationAction::CmdTestSignature,
        ),
{
    registry::lemma_cmd_test_signature_paths_are_unique(113);
    registry::lemma_cmd_test_signature_paths_are_unique(114);
    if 0 <= i < ROUTE_GUARD_LEN {
        registry::lemma_cmd_test_signature_paths_are_unique(i);
    }
    assert(route_verdict(113)->Actions_0[0] == ConfirmationAction::CmdTestSignature);
    assert(route_verdict(114)->Actions_0[0] == ConfirmationAction::CmdTestSignature);
}

/// Whether some route's verdict gates on `a`.
pub open spec fn action_wired(a: ConfirmationAction) -> bool {
    exists|i: int| 0 <= i < ROUTE_GUARD_LEN && verdict_gates(#[trigger] route_verdict(i), a)
}

/// The actions no route reaches yet.
pub open spec fn awaiting_actions() -> Seq<ConfirmationAction> {
    seq![
        ConfirmationAction::TermoWithdraw,
        ConfirmationAction::UserBulkDisable,
        ConfirmationAction::UserBulkRoleChange,
    ]
}

/// **Every action is either wired to a route or explicitly awaiting one**: some registered route
/// gates on each action that is not listed as awaiting its route.
pub proof fn lemma_every_action_wired_or_awaiting(a: ConfirmationAction)
    ensures
        action_wired(a) || awaiting_actions().contains(a),
{
    match a {
        ConfirmationAction::EntityArchive => {
            assert(route_verdict(3)->Actions_0[0] == a);
            assert(verdict_gates(route_verdict(3), a));
        },
        ConfirmationAction::GroupArchive => {
            assert(route_verdict(12)->Actions_0[0] == a);
            assert(verdict_gates(route_verdict(12), a));
        },
        ConfirmationAction::GroupEntityRemove => {
            assert(route_verdict(13)->Actions_0[0] == a);
            assert(verdict_gates(route_verdict(13), a));
        },
        ConfirmationAction::TemplateLibraryArchive => {
            assert(route_verdict(16)->Actions_0[0] == a);
            assert(verdict_gates(route_verdict(16), a));
        },
        ConfirmationAction::RepositoryPolicyDelete => {
            assert(route_verdict(22)->Actions_0[0] == a);
            assert(verdict_gates(route_verdict(22), a));
        },
        ConfirmationAction::RepositoryDelete => {
            assert(route_verdict(24)->Actions_0[0] == a);
            assert(verdict_gates(route_verdict(24), a));
        },
        ConfirmationAction::BookClose => {
            assert(route_verdict(35)->Actions_0[0] == a);
            assert(verdict_gates(route_verdict(35), a));
        },
        ConfirmationAction::TermoAberturaAdvance => {
            assert(route_verdict(38)->Actions_0[0] == a);
            assert(verdict_gates(route_verdict(38), a));
        },
        ConfirmationAction::TermoAberturaOpen => {
            assert(route_verdict(43)->Actions_0[0] == a);
            assert(verdict_gates(route_verdict(43), a));
        },
        ConfirmationAction::TermoEncerramentoAdvance => {
            assert(route_verdict(45)->Actions_0[0] == a);
            assert(verdict_gates(route_verdict(45), a));
        },
        ConfirmationAction::TermoEncerramentoClose => {
            assert(route_verdict(48)->Actions_0[0] == a);
            assert(verdict_gates(route_verdict(48), a));
        },
        ConfirmationAction::LegalHoldRelease => {
            assert(route_verdict(62)->Actions_0[0] == a);
            assert(verdict_gates(route_verdict(62), a));
        },
        ConfirmationAction::BookArchiveDisposal => {
            assert(route_verdict(65)->Actions_0[0] == a);
            assert(verdict_gates(route_verdict(65), a));
        },
        ConfirmationAction::ActReopen => {
            assert(route_verdict(69)->Actions_0[0] == a);
            assert(verdict_gates(route_verdict(69), a));
        },
        ConfirmationAction::ActRevert => {
            assert(route_verdict(70)->Actions_0[0] == a);
            assert(verdict_gates(route_verdict(70), a));
        },
        ConfirmationAction::ActSeal => {
            assert(route_verdict(74)->Actions_0[0] == a);
            assert(verdict_gates(route_verdict(74), a));
        },
        ConfirmationAction::ActArchive => {
            assert(route_verdict(75)->Actions_0[0] == a);
            assert(verdict_gates(route_verdict(75), a));
        },
        ConfirmationAction::BatchSignature => {
            assert(route_verdict(112)->Actions_0[0] == a);
            assert(verdict_gates(route_verdict(112), a));
        },
        ConfirmationAction::CmdTestSignature => {
            assert(route_verdict(113)->Actions_0[0] == a);
            assert(verdict_gates(route_verdict(113), a));
        },
        ConfirmationAction::StoredCredentialSignature => {
            assert(route_verdict(126)->Actions_0[0] == a);
            assert(verdict_gates(route_verdict(126), a));
        },
        ConfirmationAction::ExternalSignerInviteRevoke => {
            assert(route_verdict(128)->Actions_0[0] == a);
            assert(verdict_gates(route_verdict(128), a));
        },
        ConfirmationAction::SigningCredentialDelete => {
            assert(route_verdict(138)->Actions_0[0] == a);
            assert(verdict_gates(route_verdict(138), a));
        },
        ConfirmationAction::TemplateReplace => {
            assert(route_verdict(142)->Actions_0[0] == a);
            assert(verdict_gates(route_verdict(142), a));
        },
        ConfirmationAction::TemplateDelete => {
            assert(route_verdict(142)->Actions_0[1] == a);
            assert(verdict_gates(route_verdict(142), a));
        },
        ConfirmationAction::TemplateVersionDelete => {
            assert(route_verdict(144)->Actions_0[0] == a);
            assert(verdict_gates(route_verdict(144), a));
        },
        ConfirmationAction::TemplateVersionRestore => {
            assert(route_verdict(145)->Actions_0[0] == a);
            assert(verdict_gates(route_verdict(145), a));
        },
        ConfirmationAction::LedgerReanchor => {
            assert(route_verdict(156)->Actions_0[0] == a);
            assert(verdict_gates(route_verdict(156), a));
        },
        ConfirmationAction::LedgerRestore => {
            assert(route_verdict(157)->Actions_0[0] == a);
            assert(verdict_gates(route_verdict(157), a));
        },
        ConfirmationAction::ConnectorTargetArchive => {
            assert(route_verdict(162)->Actions_0[0] == a);
            assert(verdict_gates(route_verdict(162), a));
        },
        ConfirmationAction::ConnectorJobCancel => {
            assert(route_verdict(167)->Actions_0[0] == a);
            assert(verdict_gates(route_verdict(167), a));
        },
        ConfirmationAction::BookImport => {
            assert(route_verdict(171)->Actions_0[0] == a);
            assert(verdict_gates(route_verdict(171), a));
        },
        ConfirmationAction::BookStartOver => {
            assert(route_verdict(172)->Actions_0[0] == a);
            assert(verdict_gates(route_verdict(172), a));
        },
        ConfirmationAction::DataCleanupExports => {
            assert(route_verdict(175)->Actions_0[0] == a);
            assert(verdict_gates(route_verdict(175), a));
        },
        ConfirmationAction::DataCleanupOperational => {
            assert(route_verdict(175)->Actions_0[1] == a);
            assert(verdict_gates(route_verdict(175), a));
        },
        ConfirmationAction::DataKeyRotation => {
            assert(route_verdict(176)->Actions_0[0] == a);
            assert(verdict_gates(route_verdict(176), a));
        },
        ConfirmationAction::SearchRebuild => {
            assert(route_verdict(182)->Actions_0[0] == a);
            assert(verdict_gates(route_verdict(182), a));
        },
        ConfirmationAction::SearchPause => {
            assert(route_verdict(183)->Actions_0[0] == a);
            assert(verdict_gates(route_verdict(183), a));
        },
        ConfirmationAction::SettingsReplace => {
            assert(route_verdict(189)->Actions_0[0] == a);
            assert(verdict_gates(route_verdict(189), a));
        },
        ConfirmationAction::EntityTypeDisable => {
            assert(route_verdict(189)->Actions_0[1] == a);
            assert(verdict_gates(route_verdict(189), a));
        },
        ConfirmationAction::EmailPasswordDelete => {
            assert(route_verdict(192)->Actions_0[0] == a);
            assert(verdict_gates(route_verdict(192), a));
        },
        ConfirmationAction::PlatformEnvReplace => {
            assert(route_verdict(197)->Actions_0[0] == a);
            assert(verdict_gates(route_verdict(197), a));
        },
        ConfirmationAction::PlatformServiceControl => {
            assert(route_verdict(200)->Actions_0[0] == a);
            assert(verdict_gates(route_verdict(200), a));
        },
        ConfirmationAction::TrustListRefresh => {
            assert(route_verdict(208)->Actions_0[0] == a);
            assert(verdict_gates(route_verdict(208), a));
        },
        ConfirmationAction::LawPdfDelete => {
            assert(route_verdict(220)->Actions_0[0] == a);
            assert(verdict_gates(route_verdict(220), a));
        },
        ConfirmationAction::UserDisable => {
            assert(route_verdict(223)->Actions_0[0] == a);
            assert(verdict_gates(route_verdict(223), a));
        },
        ConfirmationAction::TwoFactorDisable => {
            assert(route_verdict(230)->Actions_0[0] == a);
            assert(verdict_gates(route_verdict(230), a));
        },
        ConfirmationAction::TwoFactorBackupCodesRegenerate => {
            assert(route_verdict(231)->Actions_0[0] == a);
            assert(verdict_gates(route_verdict(231), a));
        },
        ConfirmationAction::PrivacyErasureExecute => {
            assert(route_verdict(241)->Actions_0[0] == a);
            assert(verdict_gates(route_verdict(241), a));
        },
        ConfirmationAction::ApiKeyRevoke => {
            assert(route_verdict(264)->Actions_0[0] == a);
            assert(verdict_gates(route_verdict(264), a));
        },
        ConfirmationAction::ApiKeyRotate => {
            assert(route_verdict(265)->Actions_0[0] == a);
            assert(verdict_gates(route_verdict(265), a));
        },
        ConfirmationAction::RolePermissionChange => {
            assert(route_verdict(268)->Actions_0[0] == a);
            assert(verdict_gates(route_verdict(268), a));
        },
        ConfirmationAction::RoleDelete => {
            assert(route_verdict(268)->Actions_0[1] == a);
            assert(verdict_gates(route_verdict(268), a));
        },
        ConfirmationAction::RoleSeededReconciliation => {
            assert(route_verdict(269)->Actions_0[0] == a);
            assert(verdict_gates(route_verdict(269), a));
        },
        ConfirmationAction::RoleAssign => {
            assert(route_verdict(272)->Actions_0[0] == a);
            assert(verdict_gates(route_verdict(272), a));
        },
        ConfirmationAction::RoleUnassign => {
            assert(route_verdict(272)->Actions_0[1] == a);
            assert(verdict_gates(route_verdict(272), a));
        },
        ConfirmationAction::DelegationRevoke => {
            assert(route_verdict(274)->Actions_0[0] == a);
            assert(verdict_gates(route_verdict(274), a));
        },
        ConfirmationAction::DelegationSuspend => {
            assert(route_verdict(275)->Actions_0[0] == a);
            assert(verdict_gates(route_verdict(275), a));
        },
        ConfirmationAction::SessionRevoke => {
            assert(route_verdict(279)->Actions_0[0] == a);
            assert(verdict_gates(route_verdict(279), a));
        },
        ConfirmationAction::SessionRevokeOthers => {
            assert(route_verdict(280)->Actions_0[0] == a);
            assert(verdict_gates(route_verdict(280), a));
        },
        ConfirmationAction::DevicePairing => {
            assert(route_verdict(282)->Actions_0[0] == a);
            assert(verdict_gates(route_verdict(282), a));
        },
        ConfirmationAction::PairingDeviceRevoke => {
            assert(route_verdict(284)->Actions_0[0] == a);
            assert(verdict_gates(route_verdict(284), a));
        },
        ConfirmationAction::TermoWithdraw | ConfirmationAction::UserBulkDisable | ConfirmationAction::UserBulkRoleChange => {},
    }
    if awaiting_actions().contains(a) {
    } else {
        assert(action_wired(a));
    }
}

/// **An action awaiting its route is reached by no route**, so a route that lands without the
/// action leaving the awaiting list would show here.
#[verifier::rlimit(100)]
pub proof fn lemma_awaiting_actions_are_unreachable(a: ConfirmationAction)
    requires
        awaiting_actions().contains(a),
    ensures
        !action_wired(a),
{
    assert(a == ConfirmationAction::TermoWithdraw || a == ConfirmationAction::UserBulkDisable || a
        == ConfirmationAction::UserBulkRoleChange);
    assert forall|i: int| 0 <= i < ROUTE_GUARD_LEN implies !verdict_gates(#[trigger] route_verdict(i), a) by {
        match route_verdict(i) {
            GuardVerdict::Actions(acts) => {
                assert(!acts.contains(a));
            },
            _ => {},
        }
    }
}

/// Whether `a` occurs in `acts`.
fn slice_has_action(acts: &[ConfirmationAction], a: ConfirmationAction) -> (r: bool)
    ensures
        r == acts@.contains(a),
{
    let mut k: usize = 0;
    while k < acts.len()
        invariant
            0 <= k <= acts@.len(),
            forall|m: int| 0 <= m < k ==> acts@[m] != a,
        decreases acts.len() - k,
    {
        if acts[k] == a {
            assert(acts@[k as int] == a);
            return true;
        }
        k += 1;
    }
    false
}

/// Whether some route's verdict gates on `a` (computed over the whole registry).
pub fn is_action_wired(a: ConfirmationAction) -> (r: bool)
    ensures
        r == action_wired(a),
{
    let mut i: usize = 0;
    while i < ROUTE_GUARD_LEN
        invariant
            0 <= i <= ROUTE_GUARD_LEN,
            forall|j: int| 0 <= j < i ==> !verdict_gates(#[trigger] route_verdict(j), a),
        decreases ROUTE_GUARD_LEN - i,
    {
        let entry = route_guard_entry(i);
        match entry.1 {
            RouteGuard::Actions(acts) => {
                if slice_has_action(acts, a) {
                    assert(entry.1@ == GuardVerdict::Actions(acts@));
                    return true;
                }
            },
            _ => {},
        }
        i += 1;
    }
    false
}

/// The actions no route reaches yet, each with the reason a route is still owed.
pub fn awaiting_route() -> (r: Vec<(ConfirmationAction, &'static str)>)
    ensures
        r@.len() == 3,
        r@[0].0 == ConfirmationAction::TermoWithdraw,
        r@[1].0 == ConfirmationAction::UserBulkDisable,
        r@[2].0 == ConfirmationAction::UserBulkRoleChange,
        r@[0].1@
            == "t51 is adding the withdraw route; `TermoInstrument::withdraw_to_draft` exists in `chancela-core` but no endpoint reaches it yet."@,
        r@[1].1@ == "t56-e4 is adding `POST /v1/users/bulk`."@,
        r@[2].1@ == "t56-e4 is adding `POST /v1/users/bulk`."@,
        forall|k: int| 0 <= k < r@.len() ==> awaiting_actions()[k] == (#[trigger] r@[k]).0,
{
    vec![
        (
            ConfirmationAction::TermoWithdraw,
            "t51 is adding the withdraw route; `TermoInstrument::withdraw_to_draft` exists in `chancela-core` but no endpoint reaches it yet.",
        ),
        (ConfirmationAction::UserBulkDisable, "t56-e4 is adding `POST /v1/users/bulk`."),
        (ConfirmationAction::UserBulkRoleChange, "t56-e4 is adding `POST /v1/users/bulk`."),
    ]
}

// =================================================================================================
// Settings and resolution
// =================================================================================================

/// The operator-configurable half of the policy: per-action overrides that may only **raise**
/// strictness. An absent entry means "use the floor".
#[derive(Debug, Clone, Default, PartialEq, Eq)]
pub struct ConfirmationSettings {
    /// Per-action overrides.
    pub actions: BTreeMap<ConfirmationAction, ConfirmationStrictness>,
}

impl ConfirmationSettings {
    /// Whether the slice is entirely at its default (empty) value.
    pub fn is_default(&self) -> (r: bool)
        ensures
            r == self.actions@.is_empty(),
    {
        self.actions.is_empty()
    }
}

/// The operator's configured override for `action`, as the resolution reads it today: none is
/// consulted yet, so every action resolves to its floor.
pub fn configured_strictness(
    _settings: &ConfirmationSettings,
    _action: ConfirmationAction,
) -> (r: Option<ConfirmationStrictness>)
    ensures
        r is None,
{
    None
}

/// `max(floor, configured)`, by rank: a configured value above the floor wins, anything else yields
/// the floor.
pub open spec fn resolved_strictness(
    floor: ConfirmationStrictness,
    configured: Option<ConfirmationStrictness>,
) -> ConfirmationStrictness {
    match configured {
        Some(c) => if strictness_rank(c) > strictness_rank(floor) {
            c
        } else {
            floor
        },
        None => floor,
    }
}

/// **The only place strictness levels are compared:** `max(floor, configured)`.
pub fn resolve_strictness(
    floor: ConfirmationStrictness,
    configured: Option<ConfirmationStrictness>,
) -> (r: ConfirmationStrictness)
    ensures
        r == resolved_strictness(floor, configured),
        strictness_rank(r) >= strictness_rank(floor),
        configured matches Some(c) ==> strictness_rank(r) >= strictness_rank(c),
{
    match configured {
        Some(c) => if strictness_level(c) > strictness_level(floor) {
            c
        } else {
            floor
        },
        None => floor,
    }
}

/// The strictness `action` is enforced at under `settings`: a configured entry can raise the
/// action's strictness above its floor and can never lower it. The resolution reads no override
/// from `settings` yet ([`configured_strictness`] answers none), so today every action is enforced
/// at exactly its floor, whatever `settings.actions` holds.
pub fn effective_strictness(
    settings: &ConfirmationSettings,
    action: ConfirmationAction,
) -> (r: ConfirmationStrictness)
    ensures
        r == resolved_strictness(action_floor(action), None),
        r == action_floor(action),
        strictness_rank(r) >= strictness_rank(action_floor(action)),
        action == ConfirmationAction::DevicePairing ==> r == ConfirmationStrictness::ConfirmWithReauth,
{
    let floor = action.floor();
    proof {
        lemma_floor_tiers(action);
    }
    resolve_strictness(floor, configured_strictness(settings, action))
}

/// A configured value can raise a floor and can never lower it.
pub proof fn lemma_configured_never_lowers_floor(
    floor: ConfirmationStrictness,
    configured: ConfirmationStrictness,
)
    ensures
        strictness_rank(resolved_strictness(floor, Some(configured))) >= strictness_rank(floor),
        strictness_rank(resolved_strictness(floor, Some(configured))) >= strictness_rank(
            configured,
        ),
        strictness_rank(configured) <= strictness_rank(floor) ==> resolved_strictness(
            floor,
            Some(configured),
        ) == floor,
{
}

// =================================================================================================
// The handler-side gate
// =================================================================================================

/// The proof a guarded request carries: the step-up re-authentication (whose shape belongs to the
/// session layer, hence the parameter) and the phrase the operator entered, if any. Every field
/// defaults, so a body carrying no confirmation at all is an empty proof, which is refused.
#[derive(Default)]
pub struct ConfirmationProof<R> {
    pub reauth: R,
    pub confirm_phrase: Option<String>,
}

impl<R> ConfirmationProof<R> {
    /// The phrase the operator entered, as a borrowed string.
    pub fn supplied_phrase(&self) -> (r: Option<&str>)
        ensures
            match self.confirm_phrase {
                None => r is None,
                Some(p) => r matches Some(s) && s@ == p@,
            },
    {
        match &self.confirm_phrase {
            None => None,
            Some(p) => Some(p.as_str()),
        }
    }
}

/// The message of the refusal for a missing or wrong typed phrase.
pub open spec fn phrase_required_message(expected: Seq<char>) -> Seq<char> {
    "confirmação necessária: escreva exatamente «"@ + expected + "» para continuar"@
}

/// The uniform refusal for a missing or wrong typed phrase. It names the expected phrase.
pub fn phrase_required(expected: &str) -> (r: ApiError)
    ensures
        r.kind == ApiErrorKind::Forbidden,
        r.message@ == phrase_required_message(expected@),
        r.code is None,
{
    let mut m = owned("confirmação necessária: escreva exatamente «");
    push_str(&mut m, expected);
    push_str(&mut m, "» para continuar");
    ApiError::new(ApiErrorKind::Forbidden, m)
}

/// Whether a request at this strictness must carry a successful step-up re-authentication.
pub fn requires_step_up(strictness: ConfirmationStrictness) -> (r: bool)
    ensures
        r == (strictness_rank(strictness) >= 2),
        r == (strictness == ConfirmationStrictness::ConfirmWithReauth || strictness
            == ConfirmationStrictness::ConfirmWithReauthAndPhrase),
{
    match strictness {
        ConfirmationStrictness::Off | ConfirmationStrictness::Confirm => false,
        _ => true,
    }
}

/// The message of the internal refusal for an action floored at the phrase level with no phrase.
pub open spec fn missing_phrase_message(id: Seq<char>) -> Seq<char> {
    "action "@ + id + " is floored at phrase strictness but defines no phrase"@
}

/// The phrase half of the confirmation check, made after any step-up re-authentication succeeded.
///
/// Below the phrase level there is nothing to check. At the phrase level the supplied phrase must be
/// exactly the action's phrase; otherwise the refusal names the expected phrase.
pub fn check_confirmation_phrase(
    strictness: ConfirmationStrictness,
    action: ConfirmationAction,
    supplied: Option<&str>,
) -> (r: Result<(), ApiError>)
    ensures
        strictness != ConfirmationStrictness::ConfirmWithReauthAndPhrase ==> r is Ok,
        strictness == ConfirmationStrictness::ConfirmWithReauthAndPhrase ==> match action_phrase(
            action,
        ) {
            None => r matches Err(e) && e.kind == ApiErrorKind::Internal && e.message@
                == missing_phrase_message(action_id(action)),
            Some(expected) => match supplied {
                Some(s) if s@ == expected => r is Ok,
                _ => r matches Err(e) && e.kind == ApiErrorKind::Forbidden && e.message@
                    == phrase_required_message(expected),
            },
        },
{
    match strictness {
        ConfirmationStrictness::ConfirmWithReauthAndPhrase => {
            let expected = match action.phrase() {
                Some(p) => p,
                None => {
                    let mut m = owned("action ");
                    push_str(&mut m, action.as_str());
                    push_str(&mut m, " is floored at phrase strictness but defines no phrase");
                    return Err(ApiError::new(ApiErrorKind::Internal, m));
                },
            };
            match supplied {
                Some(s) => {
                    if str_eq(s, expected) {
                        Ok(())
                    } else {
                        Err(phrase_required(expected))
                    }
                },
                None => Err(phrase_required(expected)),
            }
        },
        _ => Ok(()),
    }
}

// =================================================================================================
// Device-pairing confirmation
// =================================================================================================

/// A proof a device pairing may be confirmed with. **Any one** of these satisfies the requirement.
#[derive(Debug, Clone, Copy, PartialEq, Eq, Structural, PartialOrd, Ord, Hash)]
pub enum PairingConfirmationMethod {
    /// The operator's account password.
    Password,
    /// A live TOTP code from the operator's confirmed second factor.
    TotpCode,
    /// A code mailed to the operator's registered address at mint time and typed back in.
    EmailedCode,
}

/// The stable wire identifier of a pairing method.
pub open spec fn pairing_method_id(m: PairingConfirmationMethod) -> Seq<char> {
    match m {
        PairingConfirmationMethod::Password => "password"@,
        PairingConfirmationMethod::TotpCode => "totp_code"@,
        PairingConfirmationMethod::EmailedCode => "emailed_code"@,
    }
}

/// Every pairing method, in wire order.
pub open spec fn all_pairing_methods() -> Seq<PairingConfirmationMethod> {
    seq![
        PairingConfirmationMethod::Password,
        PairingConfirmationMethod::TotpCode,
        PairingConfirmationMethod::EmailedCode,
    ]
}

impl PairingConfirmationMethod {
    /// Every variant, in wire order.
    pub fn all() -> (r: Vec<PairingConfirmationMethod>)
        ensures
            r@ == all_pairing_methods(),
    {
        vec![
            PairingConfirmationMethod::Password,
            PairingConfirmationMethod::TotpCode,
            PairingConfirmationMethod::EmailedCode,
        ]
    }

    /// The stable wire identifier.
    pub fn as_str(self) -> (r: &'static str)
        ensures
            r@ == pairing_method_id(self),
    {
        match self {
            PairingConfirmationMethod::Password => "password",
            PairingConfirmationMethod::TotpCode => "totp_code",
            PairingConfirmationMethod::EmailedCode => "emailed_code",
        }
    }
}

/// Whether `m` occurs in `methods`.
fn method_listed(methods: &Vec<PairingConfirmationMethod>, m: PairingConfirmationMethod) -> (r: bool)
    ensures
        r == methods@.contains(m),
{
    let mut i: usize = 0;
    while i < methods.len()
        invariant
            0 <= i <= methods@.len(),
            forall|j: int| 0 <= j < i ==> methods@[j] != m,
        decreases methods.len() - i,
    {
        if methods[i] == m {
            return true;
        }
        i += 1;
    }
    false
}

/// Which confirmation methods this deployment accepts for a device pairing. The list is read as a
/// set; a well-formed one holds each accepted method once, in wire order.
#[derive(Debug, Clone, PartialEq, Eq)]
pub struct PairingConfirmationSettings {
    /// The accepted proofs.
    pub accepted: Vec<PairingConfirmationMethod>,
}

impl PairingConfirmationSettings {
    /// Whether `m` is accepted.
    pub open spec fn accepts(&self, m: PairingConfirmationMethod) -> bool {
        self.accepted@.contains(m)
    }

    /// The settings' invariant: each accepted method once, in wire order.
    pub open spec fn well_formed(&self) -> bool {
        self.accepted@ == all_pairing_methods().filter(|m: PairingConfirmationMethod| self.accepts(m))
    }

    /// The settings accepting exactly the methods listed (in any order, repeats allowed), each
    /// kept once in wire order.
    pub fn from_methods(methods: &Vec<PairingConfirmationMethod>) -> (r: PairingConfirmationSettings)
        ensures
            r.well_formed(),
            r.accepted@.no_duplicates(),
            forall|m: PairingConfirmationMethod| r.accepts(m) <==> methods@.contains(m),
    {
        let mut accepted: Vec<PairingConfirmationMethod> = Vec::new();
        let p = method_listed(methods, PairingConfirmationMethod::Password);
        let t = method_listed(methods, PairingConfirmationMethod::TotpCode);
        let e = method_listed(methods, PairingConfirmationMethod::EmailedCode);
        if p {
            accepted.push(PairingConfirmationMethod::Password);
        }
        if t {
            accepted.push(PairingConfirmationMethod::TotpCode);
        }
        if e {
            accepted.push(PairingConfirmationMethod::EmailedCode);
        }
        let r = PairingConfirmationSettings { accepted };
        proof {
            let s = all_pairing_methods();
            let pred = |m: PairingConfirmationMethod| r.accepts(m);
            assert forall|m: PairingConfirmationMethod| r.accepts(m) <==> methods@.contains(m) by {
                match m {
                    PairingConfirmationMethod::Password => {
                        if p {
                            assert(r.accepted@[0] == m);
                        }
                    },
                    PairingConfirmationMethod::TotpCode => {
                        if t {
                            assert(r.accepted@[if p { 1int } else { 0int }] == m);
                        }
                    },
                    PairingConfirmationMethod::EmailedCode => {
                        if e {
                            assert(r.accepted@.last() == m);
                        }
                    },
                }
            }
            reveal_with_fuel(Seq::<_>::filter, 4);
            assert(s.drop_last().drop_last().drop_last() =~= Seq::<PairingConfirmationMethod>::empty());
            assert(r.accepted@ =~= s.filter(pred));
        }
        r
    }

    /// The default: **every implemented method**, so a fresh instance still requires a
    /// confirmation; only the choice of proof is configurable.
    pub fn default_settings() -> (r: PairingConfirmationSettings)
        ensures
            r.accepted@ == all_pairing_methods(),
            r.well_formed(),
            r.accepted@.no_duplicates(),
            forall|m: PairingConfirmationMethod| r.accepts(m),
    {
        let r = PairingConfirmationSettings { accepted: PairingConfirmationMethod::all() };
        assert forall|m: PairingConfirmationMethod| r.accepts(m) by {
            match m {
                PairingConfirmationMethod::Password => assert(r.accepted@[0] == m),
                PairingConfirmationMethod::TotpCode => assert(r.accepted@[1] == m),
                PairingConfirmationMethod::EmailedCode => assert(r.accepted@[2] == m),
            }
        }
        proof {
            let s = all_pairing_methods();
            reveal_with_fuel(Seq::<_>::filter, 4);
            assert(s.drop_last().drop_last().drop_last() =~= Seq::<PairingConfirmationMethod>::empty());
            assert(s.filter(|m: PairingConfirmationMethod| r.accepts(m)) =~= s);
        }
        r
    }

    /// Whether `m` is accepted, computed.
    pub fn accepts_method(&self, m: PairingConfirmationMethod) -> (r: bool)
        ensures
            r == self.accepts(m),
    {
        let mut i: usize = 0;
        while i < self.accepted.len()
            invariant
                0 <= i <= self.accepted@.len(),
                forall|j: int| 0 <= j < i ==> self.accepted@[j] != m,
            decreases self.accepted.len() - i,
        {
            if self.accepted[i] == m {
                return true;
            }
            i += 1;
        }
        false
    }

    /// The accepted methods as stable wire identifiers, each once, in wire order.
    pub fn accepted_ids(&self) -> (r: Vec<&'static str>)
        ensures
            r@.map_values(|s: &'static str| s@) == all_pairing_methods().filter(
                |m: PairingConfirmationMethod| self.accepts(m),
            ).map_values(|m: PairingConfirmationMethod| pairing_method_id(m)),
    {
        let all = PairingConfirmationMethod::all();
        let mut r: Vec<&'static str> = Vec::new();
        let ghost pred = |m: PairingConfirmationMethod| self.accepts(m);
        let mut i: usize = 0;
        while i < all.len()
            invariant
                0 <= i <= all@.len(),
                all@ == all_pairing_methods(),
                pred == (|m: PairingConfirmationMethod| self.accepts(m)),
                r@.map_values(|s: &'static str| s@) == all@.take(i as int).filter(pred).map_values(
                    |m: PairingConfirmationMethod| pairing_method_id(m),
                ),
            decreases all.len() - i,
        {
            let m = all[i];
            let ghost t1 = all@.take(i + 1);
            proof {
                reveal_with_fuel(Seq::<_>::filter, 1);
                assert(t1.drop_last() == all@.take(i as int));
                assert(t1.last() == m);
            }
            if self.accepts_method(m) {
                let ghost before = r@;
                r.push(m.as_str());
                proof {
                    assert(t1.filter(pred) == all@.take(i as int).filter(pred).push(m));
                    assert(r@.map_values(|s: &'static str| s@) =~= before.map_values(
                        |s: &'static str| s@,
                    ).push(pairing_method_id(m)));
                    assert(t1.filter(pred).map_values(
                        |m: PairingConfirmationMethod| pairing_method_id(m),
                    ) =~= all@.take(i as int).filter(pred).map_values(
                        |m: PairingConfirmationMethod| pairing_method_id(m),
                    ).push(pairing_method_id(m)));
                }
            } else {
                proof {
                    assert(all@.take(i + 1).filter(pred) == all@.take(i as int).filter(pred));
                }
            }
            i += 1;
        }
        proof {
            assert(all@.take(all@.len() as int) == all@);
        }
        r
    }
}

/// The confirmation a device presents when it redeems a pairing code. Every field absent is an
/// empty proof, which is refused.
#[derive(Default)]
pub struct PairingConfirmationProof {
    pub password: Option<String>,
    pub totp_code: Option<String>,
    /// The code mailed to the operator when the pairing code was minted.
    pub emailed_code: Option<String>,
}

/// The message of the single, uniform refusal for an unconfirmed pairing.
pub open spec fn pairing_not_confirmed_message() -> Seq<char> {
    "o emparelhamento do dispositivo não foi confirmado"@
}

/// The single, uniform refusal for an unconfirmed pairing: every failure mode reads the same.
pub fn pairing_not_confirmed() -> (r: ApiError)
    ensures
        r.kind == ApiErrorKind::Forbidden,
        r.message@ == pairing_not_confirmed_message(),
        r.code is None,
{
    ApiError::new(ApiErrorKind::Forbidden, owned("o emparelhamento do dispositivo não foi confirmado"))
}

/// The proofs the pairing gate tries, in the order it tries them: a method is tried only when the
/// deployment accepts it and the device supplied that proof (and, for the password, the operator
/// has one). The first one that verifies confirms the pairing; when none does, the answer is
/// [`pairing_not_confirmed`].
pub fn pairing_attempts(
    settings: &PairingConfirmationSettings,
    proof: &PairingConfirmationProof,
    has_password: bool,
) -> (r: Vec<PairingConfirmationMethod>)
    ensures
        r@ == all_pairing_methods().filter(
            |m: PairingConfirmationMethod|
                settings.accepts(m) && match m {
                    PairingConfirmationMethod::Password => proof.password is Some && has_password,
                    PairingConfirmationMethod::TotpCode => proof.totp_code is Some,
                    PairingConfirmationMethod::EmailedCode => proof.emailed_code is Some,
                },
        ),
{
    let ghost pred = |m: PairingConfirmationMethod|
        settings.accepts(m) && match m {
            PairingConfirmationMethod::Password => proof.password is Some && has_password,
            PairingConfirmationMethod::TotpCode => proof.totp_code is Some,
            PairingConfirmationMethod::EmailedCode => proof.emailed_code is Some,
        };
    let mut r: Vec<PairingConfirmationMethod> = Vec::new();
    if settings.accepts_method(PairingConfirmationMethod::Password) && proof.password.is_some()
        && has_password {
        r.push(PairingConfirmationMethod::Password);
    }
    if settings.accepts_method(PairingConfirmationMethod::TotpCode) && proof.totp_code.is_some() {
        r.push(PairingConfirmationMethod::TotpCode);
    }
    if settings.accepts_method(PairingConfirmationMethod::EmailedCode)
        && proof.emailed_code.is_some() {
        r.push(PairingConfirmationMethod::EmailedCode);
    }
    proof {
        let s = all_pairing_methods();
        reveal_with_fuel(Seq::<_>::filter, 4);
        assert(s.drop_last().drop_last().drop_last() =~= Seq::<PairingConfirmationMethod>::empty());
        assert(r@ =~= s.filter(pred));
    }
    r
}

// =================================================================================================
// GET /v1/confirmation-policy
// =================================================================================================

/// One action's resolved policy. `floor` ships alongside `effective` so the admin UI can render a
/// sub-floor level as disabled rather than offering a level the server would ignore.
#[derive(Debug, Clone)]
pub struct ConfirmationActionPolicyView {
    pub action: &'static str,
    pub floor: ConfirmationStrictness,
    pub effective: ConfirmationStrictness,
    pub consequence: ConfirmationConsequence,
    pub phrase: Option<&'static str>,
    /// `false` while no route reaches this action yet.
    pub wired: bool,
}

/// `GET /v1/confirmation-policy` response.
#[derive(Debug, Clone)]
pub struct ConfirmationPolicyView {
    pub actions: Vec<ConfirmationActionPolicyView>,
}

/// The resolved policy of one action under `settings`.
pub open spec fn action_policy_matches(
    v: ConfirmationActionPolicyView,
    a: ConfirmationAction,
) -> bool {
    &&& v.action@ == action_id(a)
    &&& v.floor == action_floor(a)
    &&& v.effective == action_floor(a)
    &&& v.consequence == action_consequence(a)
    &&& match v.phrase {
        Some(p) => action_phrase(a) == Some(p@),
        None => action_phrase(a) is None,
    }
    &&& v.wired == action_wired(a)
}

/// The resolved per-action policy, one entry per action in declaration order.
pub fn confirmation_policy(settings: &ConfirmationSettings) -> (r: ConfirmationPolicyView)
    ensures
        r.actions@.len() == all_actions().len(),
        forall|i: int|
            0 <= i < r.actions@.len() ==> action_policy_matches(
                #[trigger] r.actions@[i],
                all_actions()[i],
            ),
{
    let all = ConfirmationAction::all();
    let mut out: Vec<ConfirmationActionPolicyView> = Vec::new();
    let mut i: usize = 0;
    while i < all.len()
        invariant
            0 <= i <= all@.len(),
            all@ == all_actions(),
            out@.len() == i,
            forall|j: int|
                0 <= j < i ==> action_policy_matches(#[trigger] out@[j], all_actions()[j]),
        decreases all.len() - i,
    {
        let action = all[i];
        let view = ConfirmationActionPolicyView {
            action: action.as_str(),
            floor: action.floor(),
            effective: effective_strictness(settings, action),
            consequence: action.consequence(),
            phrase: action.phrase(),
            wired: is_action_wired(action),
        };
        out.push(view);
        i += 1;
    }
    ConfirmationPolicyView { actions: out }
}

} // verus!
