use std::collections::{BTreeMap, BTreeSet};

use chancela_api::confirmation::{
    awaiting_route, check_confirmation_phrase, confirmation_policy, effective_strictness, guard_for_route,
    is_action_wired, pairing_attempts, pairing_not_confirmed, phrase_required, requires_step_up, resolve_strictness,
    route_guard_entry, ConfirmationAction, ConfirmationProof, ConfirmationSettings, ConfirmationStrictness,
    PairingConfirmationMethod, PairingConfirmationProof, PairingConfirmationSettings, RouteGuard, ROUTE_GUARD_LEN,
};
use chancela_api::confirmation::ConfirmationStrictness::{Confirm, ConfirmWithReauth, ConfirmWithReauthAndPhrase, Off};
use chancela_api::error::ApiErrorKind;

fn route_guard() -> Vec<(&'static str, RouteGuard)> {
    (0..ROUTE_GUARD_LEN).map(route_guard_entry).collect()
}

#[test]
fn route_guard_has_no_duplicate_paths() {
    let mut seen = BTreeSet::new();
    for (path, _) in route_guard() {
        assert!(seen.insert(path), "duplicate ROUTE_GUARD entry for {path}");
    }
    assert_eq!(seen.len(), ROUTE_GUARD_LEN);
}

#[test]
fn every_action_is_either_wired_to_a_route_or_explicitly_awaiting_one() {
    let wired: BTreeSet<ConfirmationAction> = route_guard()
        .iter()
        .filter_map(|(_, guard)| match guard {
            RouteGuard::Actions(actions) => Some(actions.iter().copied()),
            RouteGuard::PreExistingGate(_) | RouteGuard::NotGuarded(_) => None,
        })
        .flatten()
        .collect();
    let awaiting_list = awaiting_route();
    let awaiting: BTreeSet<ConfirmationAction> = awaiting_list.iter().map(|(a, _)| *a).collect();
    for (action, why) in &awaiting_list {
        assert!(!wired.contains(action), "{} is awaiting ({why}) but a route reaches it", action.as_str());
        assert!(!is_action_wired(*action));
    }
    for action in ConfirmationAction::all() {
        assert!(wired.contains(&action) || awaiting.contains(&action), "{} is unreachable", action.as_str());
        assert_eq!(is_action_wired(action), wired.contains(&action));
    }
}

#[test]
fn all_is_complete_and_wire_ids_are_unique() {
    let all = ConfirmationAction::all();
    let ids: BTreeSet<&str> = all.iter().map(|a| a.as_str()).collect();
    assert_eq!(ids.len(), all.len(), "two actions share a wire id");
    let set: BTreeSet<ConfirmationAction> = all.iter().copied().collect();
    assert_eq!(set.len(), all.len());
}

#[test]
fn phrase_exists_exactly_for_the_phrase_floor() {
    for action in ConfirmationAction::all() {
        let floored = action.floor() == ConfirmationStrictness::ConfirmWithReauthAndPhrase;
        assert_eq!(floored, action.phrase().is_some(), "{}: floor and phrase disagree", action.as_str());
        if let Some(phrase) = action.phrase() {
            assert_eq!(phrase.trim(), phrase, "{}: phrase has padding", action.as_str());
            assert!(!phrase.is_empty(), "{}: empty phrase", action.as_str());
        }
    }
}

#[test]
fn floors_are_not_uniform() {
    let all = ConfirmationAction::all();
    let mut histogram: BTreeMap<ConfirmationStrictness, usize> = BTreeMap::new();
    for action in &all {
        *histogram.entry(action.floor()).or_default() += 1;
    }
    assert!(histogram.len() >= 3, "floors collapsed onto {} level(s): {histogram:?}", histogram.len());
    let phrase = histogram.get(&ConfirmationStrictness::ConfirmWithReauthAndPhrase).copied().unwrap_or(0);
    assert!(phrase * 3 < all.len(), "{phrase} of {} actions demand a typed phrase", all.len());
    assert!(!histogram.contains_key(&ConfirmationStrictness::Off), "an action is floored Off");
}

#[test]
fn a_configured_entry_can_never_lower_a_floor() {
    let settings = ConfirmationSettings::default();
    for action in ConfirmationAction::all() {
        assert!(effective_strictness(&settings, action) >= action.floor(), "{} resolved below its floor", action.as_str());
    }
    for floor in [Confirm, ConfirmWithReauth, ConfirmWithReauthAndPhrase] {
        for configured in [Off, Confirm, ConfirmWithReauth, ConfirmWithReauthAndPhrase] {
            let r = resolve_strictness(floor, Some(configured));
            assert!(r >= floor && r >= configured);
            assert_eq!(r, floor.max(configured));
        }
        assert_eq!(resolve_strictness(floor, None), floor);
    }
}

#[test]
fn strictness_is_ordered_low_to_high() {
    assert!(Off < Confirm);
    assert!(Confirm < ConfirmWithReauth);
    assert!(ConfirmWithReauth < ConfirmWithReauthAndPhrase);
    assert!(!requires_step_up(Confirm) && requires_step_up(ConfirmWithReauth));
}

#[test]
fn every_recorded_reason_is_substantive() {
    for (path, guard) in route_guard() {
        let reason = match guard {
            RouteGuard::Actions(actions) => {
                assert!(!actions.is_empty(), "{path}: Actions(&[]) guards nothing");
                continue;
            }
            RouteGuard::PreExistingGate(why) | RouteGuard::NotGuarded(why) => why,
        };
        assert!(reason.len() >= 30, "{path}: the recorded reason is too thin to review: {reason:?}");
        assert!(reason.ends_with('.') || reason.ends_with('`'), "{path}: reason should read as a sentence");
    }
}

#[test]
fn the_policy_endpoint_is_classified_and_not_self_guarded() {
    assert!(matches!(guard_for_route("/v1/confirmation-policy"), Some(RouteGuard::NotGuarded(_))));
    assert!(guard_for_route("/v1/no-such-route").is_none());
}

#[test]
fn the_policy_lists_every_action_at_its_floor() {
    let policy = confirmation_policy(&ConfirmationSettings::default());
    let all = ConfirmationAction::all();
    assert_eq!(policy.actions.len(), all.len());
    for (view, action) in policy.actions.iter().zip(all.iter()) {
        assert_eq!(view.action, action.as_str());
        assert_eq!(view.floor, action.floor());
        assert_eq!(view.effective, action.floor());
        assert_eq!(view.phrase, action.phrase());
        assert_eq!(view.wired, is_action_wired(*action));
    }
}

#[test]
fn the_typed_phrase_must_match_exactly() {
    let action = ConfirmationAction::all()
        .into_iter()
        .find(|a| a.phrase().is_some())
        .expect("some action asks for a phrase");
    let phrase = action.phrase().unwrap();
    let level = ConfirmationStrictness::ConfirmWithReauthAndPhrase;
    assert!(check_confirmation_phrase(level, action, Some(phrase)).is_ok());
    let e = check_confirmation_phrase(level, action, Some(&phrase.to_lowercase())).unwrap_err();
    assert_eq!(e, phrase_required(phrase));
    assert_eq!(e.kind, ApiErrorKind::Forbidden);
    assert_eq!(e.message, format!("confirmação necessária: escreva exatamente «{phrase}» para continuar"));
    assert!(check_confirmation_phrase(level, action, None).is_err());
    assert!(check_confirmation_phrase(ConfirmationStrictness::ConfirmWithReauth, action, None).is_ok());
    let proof: ConfirmationProof<()> = ConfirmationProof { reauth: (), confirm_phrase: Some(phrase.to_owned()) };
    assert!(check_confirmation_phrase(level, action, proof.supplied_phrase()).is_ok());
    let empty: ConfirmationProof<()> = ConfirmationProof::default();
    assert_eq!(empty.supplied_phrase(), None);
    assert!(check_confirmation_phrase(level, action, empty.supplied_phrase()).is_err());
}

#[test]
fn a_pairing_is_confirmed_by_any_one_accepted_method() {
    let all = PairingConfirmationSettings::default_settings();
    assert_eq!(all.accepted_ids(), vec!["password", "totp_code", "emailed_code"]);
    let proof = PairingConfirmationProof {
        password: Some("pw".to_owned()),
        totp_code: None,
        emailed_code: Some("code".to_owned()),
    };
    assert_eq!(
        pairing_attempts(&all, &proof, true),
        vec![PairingConfirmationMethod::Password, PairingConfirmationMethod::EmailedCode]
    );
    assert_eq!(pairing_attempts(&all, &proof, false), vec![PairingConfirmationMethod::EmailedCode]);
    let totp_only = PairingConfirmationSettings::from_methods(&vec![PairingConfirmationMethod::TotpCode]);
    assert!(pairing_attempts(&totp_only, &proof, true).is_empty());
    let nothing = PairingConfirmationSettings::from_methods(&Vec::new());
    assert!(pairing_attempts(&nothing, &proof, true).is_empty());
    assert_eq!(pairing_not_confirmed().kind, ApiErrorKind::Forbidden);
    assert_eq!(pairing_not_confirmed().message, "o emparelhamento do dispositivo não foi confirmado");
}

#[test]
fn pairing_settings_keep_each_method_once_in_wire_order() {
    let s = PairingConfirmationSettings::from_methods(&vec![
        PairingConfirmationMethod::EmailedCode,
        PairingConfirmationMethod::Password,
        PairingConfirmationMethod::EmailedCode,
    ]);
    assert_eq!(s.accepted, vec![PairingConfirmationMethod::Password, PairingConfirmationMethod::EmailedCode]);
    assert_eq!(s.accepted_ids(), vec!["password", "emailed_code"]);
}
