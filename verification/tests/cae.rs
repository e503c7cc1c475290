use chancela_api::cae::{
    build_strict_chain, chain_entry_label, chain_kinds, chain_refresh_outcome, non_empty, refresh_route,
    resolve_cae_update_url, search_limit, select_source, unconfigured_error, CaeSourceEntry, ChainEntry,
    ChainEntryKind, ChainRefreshOutcome, PreferredOfficialSource, RefreshRoute, DEFAULT_SEARCH_LIMIT,
    MAX_SEARCH_LIMIT,
};
use chancela_api::error::ApiErrorKind;

const OFFICIAL: &str = "Diário da República (fonte oficial)";
const INE: &str = "INE (fonte oficial)";

fn entry(url: &str) -> CaeSourceEntry {
    CaeSourceEntry { url: url.to_owned(), digest: None }
}

/// A strict chain with the official prepend (INE first, or the Diário da República alone) and the
/// given mirrors.
fn chain(official: bool, ine_first: bool, mirrors: &[&str]) -> Vec<ChainEntry> {
    let preferred = if ine_first { PreferredOfficialSource::Ine } else { PreferredOfficialSource::DiarioRepublica };
    let sources: Vec<CaeSourceEntry> = mirrors.iter().map(|m| entry(m)).collect();
    build_strict_chain(official, preferred, &sources)
}

fn kinds(c: &Vec<ChainEntry>) -> Vec<ChainEntryKind> {
    chain_kinds(c)
}

fn labels(c: &[ChainEntry]) -> Vec<String> {
    c.iter().map(chain_entry_label).collect()
}

fn labels_at(c: &[ChainEntry], positions: &[usize]) -> Vec<String> {
    positions.iter().map(|&i| chain_entry_label(&c[i])).collect()
}

#[test]
fn strict_chain_orders_official_then_sources() {
    // With DR preferred, the official prepend is the DR pair alone, before the sources. The legacy
    // update URL is not part of the strict chain.
    let sources = vec![entry("https://a.example/cae.json"), entry("https://b.example/cae.json")];
    let c = build_strict_chain(true, PreferredOfficialSource::DiarioRepublica, &sources);
    assert_eq!(labels(&c), vec![OFFICIAL, "https://a.example/cae.json", "https://b.example/cae.json"]);
}

#[test]
fn strict_chain_ine_first_expands_the_official_pair_by_default() {
    assert_eq!(PreferredOfficialSource::default(), PreferredOfficialSource::Ine, "default preference is INE");
    let c = build_strict_chain(true, PreferredOfficialSource::default(), &vec![entry("https://a.example/cae.json")]);
    assert_eq!(labels(&c), vec![INE, OFFICIAL, "https://a.example/cae.json"]);
}

#[test]
fn strict_chain_skips_the_official_entry_when_off() {
    let c = build_strict_chain(false, PreferredOfficialSource::default(), &vec![entry("https://only.example/cae.json")]);
    assert_eq!(labels(&c), vec!["https://only.example/cae.json"]);
}

#[test]
fn strict_chain_empty_when_no_official_and_no_sources() {
    assert!(build_strict_chain(false, PreferredOfficialSource::default(), &Vec::new()).is_empty());
    assert!(build_strict_chain(false, PreferredOfficialSource::DiarioRepublica, &Vec::new()).is_empty());
}

#[test]
fn strict_chain_keeps_each_mirror_digest_pin_trimmed() {
    let sources = vec![
        CaeSourceEntry { url: "https://a.example/cae.json".to_owned(), digest: Some("  abc ".to_owned()) },
        CaeSourceEntry { url: "https://b.example/cae.json".to_owned(), digest: Some("   ".to_owned()) },
    ];
    let c = build_strict_chain(false, PreferredOfficialSource::Ine, &sources);
    assert_eq!(c[0].digest.as_deref(), Some("abc"));
    assert_eq!(c[1].digest, None);
    assert_eq!(kinds(&c), vec![ChainEntryKind::Mirror, ChainEntryKind::Mirror]);
}

#[test]
fn select_official_keeps_the_built_in_official_sources() {
    let c = chain(true, true, &["https://m.example/cae.json"]);
    let kept = select_source(&kinds(&c), Some("official")).expect("valid selector");
    assert_eq!(labels_at(&c, &kept), vec![INE, OFFICIAL]);
}

#[test]
fn select_official_with_dr_preference_is_dr_only() {
    let c = chain(true, false, &["https://m.example/cae.json"]);
    let kept = select_source(&kinds(&c), Some("official")).expect("valid selector");
    assert_eq!(labels_at(&c, &kept), vec![OFFICIAL]);
}

#[test]
fn select_mirror_keeps_only_mirror_entries() {
    let c = chain(true, true, &["https://m.example/cae.json"]);
    let kept = select_source(&kinds(&c), Some("mirror")).expect("valid selector");
    assert_eq!(labels_at(&c, &kept), vec!["https://m.example/cae.json"]);
}

#[test]
fn select_by_index_picks_one_entry() {
    let c = chain(false, true, &["https://a.example/cae.json", "https://b.example/cae.json"]);
    let kept = select_source(&kinds(&c), Some("1")).expect("valid index");
    assert_eq!(labels_at(&c, &kept), vec!["https://b.example/cae.json"]);
    let kept = select_source(&kinds(&c), Some(" 0 ")).expect("valid index");
    assert_eq!(labels_at(&c, &kept), vec!["https://a.example/cae.json"]);
    let kept = select_source(&kinds(&c), Some("7")).expect("an index past the end selects nothing");
    assert!(kept.is_empty());
}

#[test]
fn select_absent_keeps_the_whole_chain() {
    let c = chain(false, true, &["https://a.example/cae.json"]);
    let kept = select_source(&kinds(&c), None).expect("no selector is ok");
    assert_eq!(labels_at(&c, &kept), vec!["https://a.example/cae.json"]);
    let kept = select_source(&kinds(&c), Some("   ")).expect("a blank selector is no selector");
    assert_eq!(kept, vec![0]);
}

#[test]
fn select_bad_selector_is_422() {
    let c = chain(false, true, &[]);
    match select_source(&kinds(&c), Some("bogus")) {
        Err(e) => {
            assert_eq!(e.kind, ApiErrorKind::Unprocessable);
            assert_eq!(
                e.message,
                "parâmetro 'source' inválido: \"bogus\" (use 'official', 'mirror', ou um índice)"
            );
        }
        Ok(_) => panic!("a bad selector must be a 422"),
    }
}

#[test]
fn legacy_fallback_url_prefers_settings_over_env_and_trims_blanks() {
    assert_eq!(
        resolve_cae_update_url(
            Some("https://settings.example/cae.json".to_owned()),
            Some("https://env.example/cae.json".to_owned())
        )
        .as_deref(),
        Some("https://settings.example/cae.json")
    );
    assert_eq!(
        resolve_cae_update_url(Some("   ".to_owned()), Some("https://env.example/cae.json".to_owned())).as_deref(),
        Some("https://env.example/cae.json")
    );
    assert_eq!(resolve_cae_update_url(None, None), None);
    assert_eq!(resolve_cae_update_url(Some("  ".to_owned()), Some(String::new())), None);
}

#[test]
fn non_empty_trims_and_drops_blanks() {
    assert_eq!(non_empty(Some("  x  ".to_owned())).as_deref(), Some("x"));
    assert_eq!(non_empty(Some(" \t ".to_owned())), None);
    assert_eq!(non_empty(None), None);
}

#[test]
fn search_limit_defaults_and_caps() {
    assert_eq!(search_limit(None), DEFAULT_SEARCH_LIMIT);
    assert_eq!(search_limit(Some(7)), 7);
    assert_eq!(search_limit(Some(100_000)), MAX_SEARCH_LIMIT);
}

#[test]
fn refresh_route_prefers_the_legacy_source_then_the_chain_then_the_url() {
    let c = kinds(&chain(true, true, &["https://m.example/cae.json"]));
    assert_eq!(refresh_route(true, &c, Some("bogus"), None, None), Ok(RefreshRoute::LegacySource));
    assert_eq!(refresh_route(false, &c, Some("mirror"), None, None), Ok(RefreshRoute::RunChain(vec![2])));
    assert_eq!(refresh_route(false, &c, None, None, None), Ok(RefreshRoute::RunChain(vec![0, 1, 2])));
    let empty: Vec<ChainEntryKind> = Vec::new();
    assert_eq!(
        refresh_route(false, &empty, None, Some(" https://u.example ".to_owned()), None),
        Ok(RefreshRoute::LegacyUrl("https://u.example".to_owned()))
    );
    assert_eq!(refresh_route(false, &empty, None, None, None), Ok(RefreshRoute::DefaultChain));
    let pinned = refresh_route(false, &empty, Some("mirror"), Some("https://u.example".to_owned()), None);
    match pinned {
        Err(e) => {
            assert_eq!(e.kind, ApiErrorKind::Unprocessable);
            assert_eq!(
                e.message,
                "a fonte pedida (mirror) não está configurada em Configurações (Documentos → Catálogo CAE)."
            );
        }
        Ok(_) => panic!("a pin that matches nothing must be refused"),
    }
    assert!(refresh_route(false, &c, Some("bogus"), None, None).is_err());
}

#[test]
fn unconfigured_error_names_the_pin_or_the_update_url() {
    let e = unconfigured_error(None);
    assert_eq!(e.kind, ApiErrorKind::Unprocessable);
    assert!(e.message.starts_with("URL de atualização do catálogo não configurado"));
    assert!(e.message.ends_with("CHANCELA_CAE_URL."));
    let e = unconfigured_error(Some("  2 "));
    assert_eq!(e.message, "a fonte pedida (2) não está configurada em Configurações (Documentos → Catálogo CAE).");
}

#[test]
fn chain_refresh_outcome_reports_winner_unchanged_or_all_failed() {
    assert_eq!(
        chain_refresh_outcome(Some("INE".to_owned()), false),
        ChainRefreshOutcome::Updated("INE".to_owned())
    );
    assert_eq!(chain_refresh_outcome(None, true), ChainRefreshOutcome::Unchanged);
    assert_eq!(chain_refresh_outcome(None, false), ChainRefreshOutcome::AllFailed);
}
