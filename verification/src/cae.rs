//! **The CAE classification catalog** endpoints' decisions: the search limit, which refresh route
//! a request takes (a configured legacy source, a pinned or full source chain, a legacy update URL,
//! or the default official chain), which entries a source selector keeps, the refusals of an
//! unknown selector or an unconfigured source, and what a chain refresh answers.
use vstd::prelude::*;

use crate::collection_page::{debug_quoted, debug_str};
use crate::error::{refusal, ApiError, ApiErrorKind};
use crate::text::{owned, parse_usize, parse_usize_spec, push_str, string_from_chars, trim, trim_chars};

verus! {

/// Search hits returned when the request names no limit.
pub const DEFAULT_SEARCH_LIMIT: usize = 50;

/// The most search hits ever returned.
pub const MAX_SEARCH_LIMIT: usize = 500;

/// How long the catalog metadata stays cached, in seconds.
pub const CAE_CATALOG_CACHE_TTL_SECS: u64 = 300;

/// The search limit of a request: the default when none is named, never above the ceiling.
pub fn search_limit(limit: Option<usize>) -> (r: usize)
    ensures
        r == (match limit {
            None => DEFAULT_SEARCH_LIMIT,
            Some(n) => if n > MAX_SEARCH_LIMIT {
                MAX_SEARCH_LIMIT
            } else {
                n
            },
        }),
{
    let n = match limit {
        None => DEFAULT_SEARCH_LIMIT,
        Some(n) => n,
    };
    if n > MAX_SEARCH_LIMIT {
        MAX_SEARCH_LIMIT
    } else {
        n
    }
}

/// The trimmed text of an optional value, when it is not blank.
pub open spec fn non_blank(v: Option<String>) -> Option<Seq<char>> {
    match v {
        Some(s) => if trim(s@).len() == 0 {
            None
        } else {
            Some(trim(s@))
        },
        None => None,
    }
}

/// The trimmed value, when it is not blank.
pub fn non_empty(url: Option<String>) -> (r: Option<String>)
    ensures
        match non_blank(url) {
            Some(t) => r matches Some(s) && s@ == t,
            None => r is None,
        },
{
    match url {
        Some(u) => {
            let t = trim_chars(u.as_str());
            if t.len() == 0 {
                None
            } else {
                Some(string_from_chars(&t))
            }
        },
        None => None,
    }
}

/// **The legacy update URL**: the catalog setting wins over the environment; blank values count
/// as unset.
pub fn resolve_cae_update_url(settings_url: Option<String>, env_url: Option<String>) -> (r: Option<String>)
    ensures
        match non_blank(settings_url) {
            Some(t) => r matches Some(s) && s@ == t,
            None => match non_blank(env_url) {
                Some(t) => r matches Some(s) && s@ == t,
                None => r is None,
            },
        },
{
    match non_empty(settings_url) {
        Some(u) => Some(u),
        None => non_empty(env_url),
    }
}

/// What a source-chain entry is.
#[derive(Debug, Clone, Copy, PartialEq, Eq, Structural)]
pub enum ChainEntryKind {
    /// The Diário da República official source.
    Official,
    /// The INE official source.
    Ine,
    /// A configured mirror artifact.
    Mirror,
}

/// Which official source a deployment tries first.
#[derive(Debug, Clone, Copy, PartialEq, Eq, Structural)]
pub enum PreferredOfficialSource {
    /// INE first, then the Diário da República (the default).
    Ine,
    /// The Diário da República alone.
    DiarioRepublica,
}

impl Default for PreferredOfficialSource {
    fn default() -> (r: PreferredOfficialSource)
        ensures
            r == PreferredOfficialSource::Ine,
    {
        PreferredOfficialSource::Ine
    }
}

/// A configured mirror of the catalog: its URL and an optional digest pin.
#[derive(Debug, Clone, PartialEq, Eq)]
pub struct CaeSourceEntry {
    pub url: String,
    pub digest: Option<String>,
}

/// One entry of a strict source chain: its kind and, for a mirror, its URL and digest pin.
#[derive(Debug, Clone, PartialEq, Eq)]
pub struct ChainEntry {
    pub kind: ChainEntryKind,
    pub url: Option<String>,
    pub digest: Option<String>,
}

/// The official sources a preference expands to, in the order they are tried: INE and then the
/// Diário da República, or the Diário da República alone.
pub open spec fn official_sources(preferred: PreferredOfficialSource) -> Seq<ChainEntryKind> {
    match preferred {
        PreferredOfficialSource::Ine => seq![ChainEntryKind::Ine, ChainEntryKind::Official],
        PreferredOfficialSource::DiarioRepublica => seq![ChainEntryKind::Official],
    }
}

/// The official prepend of a strict chain: the preferred official sources when they are enabled.
pub open spec fn official_prepend(official: bool, preferred: PreferredOfficialSource) -> Seq<ChainEntryKind> {
    if official {
        official_sources(preferred)
    } else {
        Seq::empty()
    }
}

/// Whether `e` is the mirror of the configured source `s`: its URL, and its digest pin trimmed
/// (a blank pin is none).
pub open spec fn mirrors(e: ChainEntry, s: CaeSourceEntry) -> bool {
    &&& e.kind == ChainEntryKind::Mirror
    &&& e.url matches Some(u) && u@ == s.url@
    &&& match non_blank(s.digest) {
        Some(t) => e.digest matches Some(d) && d@ == t,
        None => e.digest is None,
    }
}

/// An official entry of a chain.
fn official_entry(kind: ChainEntryKind) -> (r: ChainEntry)
    ensures
        r.kind == kind,
        r.url is None,
        r.digest is None,
{
    ChainEntry { kind, url: None, digest: None }
}

/// **The strict source chain**: the official sources when enabled (expanded by the preference),
/// then each configured mirror with its digest pin, in order. The legacy update URL is not part
/// of it: it is the fallback a refresh takes when this chain is empty.
pub fn build_strict_chain(
    official: bool,
    preferred: PreferredOfficialSource,
    sources: &Vec<CaeSourceEntry>,
) -> (r: Vec<ChainEntry>)
    ensures
        r@.len() == official_prepend(official, preferred).len() + sources@.len(),
        forall|i: int| 0 <= i < official_prepend(official, preferred).len() ==> {
            &&& (#[trigger] r@[i]).kind == official_prepend(official, preferred)[i]
            &&& r@[i].url is None
            &&& r@[i].digest is None
        },
        forall|j: int| 0 <= j < sources@.len() ==> mirrors(
            #[trigger] r@[official_prepend(official, preferred).len() + j],
            sources@[j],
        ),
{
    let mut out: Vec<ChainEntry> = Vec::new();
    if official {
        match preferred {
            PreferredOfficialSource::Ine => {
                out.push(official_entry(ChainEntryKind::Ine));
                out.push(official_entry(ChainEntryKind::Official));
            },
            PreferredOfficialSource::DiarioRepublica => {
                out.push(official_entry(ChainEntryKind::Official));
            },
        }
    }
    let ghost prepend = official_prepend(official, preferred);
    assert(out@.len() == prepend.len());
    let mut j: usize = 0;
    while j < sources.len()
        invariant
            prepend == official_prepend(official, preferred),
            0 <= j <= sources@.len(),
            out@.len() == prepend.len() + j,
            forall|i: int| 0 <= i < prepend.len() ==> {
                &&& (#[trigger] out@[i]).kind == prepend[i]
                &&& out@[i].url is None
                &&& out@[i].digest is None
            },
            forall|k: int| 0 <= k < j ==> mirrors(#[trigger] out@[prepend.len() + k], sources@[k]),
        decreases sources@.len() - j,
    {
        let src = &sources[j];
        let pin = match &src.digest {
            Some(d) => Some(d.clone()),
            None => None,
        };
        let digest = non_empty(pin);
        let url = src.url.clone();
        let ghost before = out@;
        out.push(ChainEntry { kind: ChainEntryKind::Mirror, url: Some(url), digest });
        proof {
            assert forall|k: int| 0 <= k < j + 1 implies mirrors(#[trigger] out@[prepend.len() + k], sources@[k]) by {
                if k < j {
                    assert(out@[prepend.len() + k] == before[prepend.len() + k]);
                }
            }
        }
        j += 1;
    }
    out
}

/// The kinds of a chain's entries, in order (what a selector narrows).
pub fn chain_kinds(chain: &Vec<ChainEntry>) -> (r: Vec<ChainEntryKind>)
    ensures
        r@.len() == chain@.len(),
        forall|i: int| 0 <= i < r@.len() ==> r@[i] == (#[trigger] chain@[i]).kind,
{
    let mut out: Vec<ChainEntryKind> = Vec::new();
    let mut i: usize = 0;
    while i < chain.len()
        invariant
            0 <= i <= chain@.len(),
            out@.len() == i,
            forall|k: int| 0 <= k < i ==> out@[k] == (#[trigger] chain@[k]).kind,
        decreases chain@.len() - i,
    {
        out.push(chain[i].kind);
        i += 1;
    }
    out
}

/// The label of a chain entry in a refresh report: the official sources by name, a mirror by its
/// URL.
pub open spec fn entry_label(e: ChainEntry) -> Seq<char> {
    match e.kind {
        ChainEntryKind::Official => "Diário da República (fonte oficial)"@,
        ChainEntryKind::Ine => "INE (fonte oficial)"@,
        ChainEntryKind::Mirror => match e.url {
            Some(u) => u@,
            None => Seq::empty(),
        },
    }
}

/// The label of a chain entry.
pub fn chain_entry_label(e: &ChainEntry) -> (r: String)
    ensures
        r@ == entry_label(*e),
{
    match e.kind {
        ChainEntryKind::Official => owned("Diário da República (fonte oficial)"),
        ChainEntryKind::Ine => owned("INE (fonte oficial)"),
        ChainEntryKind::Mirror => match &e.url {
            Some(u) => u.clone(),
            None => String::new(),
        },
    }
}

/// The message of an unknown source selector.
pub open spec fn bad_selector_message(sel: Seq<char>) -> Seq<char> {
    "parâmetro 'source' inválido: "@ + debug_quoted(sel) + " (use 'official', 'mirror', ou um índice)"@
}

/// The positions a selector keeps: the official entries, the mirrors, or the one entry at an index
/// (none when out of range).
pub open spec fn selected_positions(kinds: Seq<ChainEntryKind>, sel: Seq<char>) -> Seq<int> {
    if sel == "official"@ {
        Seq::new(kinds.len(), |i: int| i).filter(|i: int| kinds[i] == ChainEntryKind::Official || kinds[i] == ChainEntryKind::Ine)
    } else if sel == "mirror"@ {
        Seq::new(kinds.len(), |i: int| i).filter(|i: int| kinds[i] == ChainEntryKind::Mirror)
    } else {
        match parse_usize_spec(sel) {
            Some(n) => if n < kinds.len() {
                seq![n as int]
            } else {
                Seq::empty()
            },
            None => Seq::empty(),
        }
    }
}

/// **Narrow a source chain to the requested sources.** No (or a blank) selector keeps every entry;
/// `official` keeps the official and INE entries, `mirror` the mirrors, and a number the entry at
/// that index; anything else is refused. Answers the kept positions, in order.
pub fn select_source(kinds: &Vec<ChainEntryKind>, source: Option<&str>) -> (r: Result<Vec<usize>, ApiError>)
    ensures
        match source {
            None => r matches Ok(v) && v@.len() == kinds@.len() && forall|i: int| 0 <= i < v@.len() ==> v@[i] == i,
            Some(s) => if trim(s@).len() == 0 {
                r matches Ok(v) && v@.len() == kinds@.len() && forall|i: int| 0 <= i < v@.len() ==> v@[i] == i
            } else if trim(s@) != "official"@ && trim(s@) != "mirror"@ && parse_usize_spec(trim(s@)) is None {
                refusal(r, ApiErrorKind::Unprocessable, bad_selector_message(trim(s@)))
            } else {
                r matches Ok(v) && v@.len() == selected_positions(kinds@, trim(s@)).len() && forall|i: int|
                    0 <= i < v@.len() ==> v@[i] == selected_positions(kinds@, trim(s@))[i]
            },
        },
{
    proof {
        reveal_strlit("official");
        reveal_strlit("mirror");
    }
    let ghost all = Seq::new(kinds@.len(), |i: int| i);
    let sel = match source {
        None => {
            return Ok(all_positions(kinds.len()));
        },
        Some(s) => {
            let t = trim_chars(s);
            if t.len() == 0 {
                return Ok(all_positions(kinds.len()));
            }
            t
        },
    };
    let sel_text = string_from_chars(&sel);
    if crate::text::str_eq(sel_text.as_str(), "official") || crate::text::str_eq(sel_text.as_str(), "mirror") {
        let official = crate::text::str_eq(sel_text.as_str(), "official");
        let ghost pred = if official {
            |i: int| kinds@[i] == ChainEntryKind::Official || kinds@[i] == ChainEntryKind::Ine
        } else {
            |i: int| kinds@[i] == ChainEntryKind::Mirror
        };
        let mut out: Vec<usize> = Vec::new();
        let mut i: usize = 0;
        while i < kinds.len()
            invariant
                0 <= i <= kinds@.len(),
                all == Seq::new(kinds@.len(), |i: int| i),
                pred == (if official {
                    |i: int| kinds@[i] == ChainEntryKind::Official || kinds@[i] == ChainEntryKind::Ine
                } else {
                    |i: int| kinds@[i] == ChainEntryKind::Mirror
                }),
                out@.len() == all.take(i as int).filter(pred).len(),
                forall|k: int| 0 <= k < out@.len() ==> out@[k] == all.take(i as int).filter(pred)[k],
            decreases kinds.len() - i,
        {
            proof {
                reveal_with_fuel(Seq::<_>::filter, 1);
                assert(all.take(i + 1).drop_last() =~= all.take(i as int));
                assert(all.take(i + 1).last() == i);
            }
            let keep = match kinds[i] {
                ChainEntryKind::Official => official,
                ChainEntryKind::Ine => official,
                ChainEntryKind::Mirror => !official,
            };
            if keep {
                out.push(i);
            }
            i += 1;
        }
        assert(all.take(kinds@.len() as int) =~= all);
        return Ok(out);
    }
    match parse_usize(sel.as_slice()) {
        Some(n) => {
            let mut out: Vec<usize> = Vec::new();
            if n < kinds.len() {
                out.push(n);
            }
            Ok(out)
        },
        None => {
            let mut m = owned("parâmetro 'source' inválido: ");
            push_str(&mut m, debug_str(sel_text.as_str()).as_str());
            push_str(&mut m, " (use 'official', 'mirror', ou um índice)");
            Err(ApiError::new(ApiErrorKind::Unprocessable, m))
        },
    }
}

fn all_positions(n: usize) -> (r: Vec<usize>)
    ensures
        r@.len() == n,
        forall|i: int| 0 <= i < n ==> r@[i] == i,
{
    let mut out: Vec<usize> = Vec::new();
    let mut i: usize = 0;
    while i < n
        invariant
            0 <= i <= n,
            out@.len() == i,
            forall|k: int| 0 <= k < i ==> out@[k] == k,
        decreases n - i,
    {
        out.push(i);
        i += 1;
    }
    out
}

/// The message of a refresh with no source configured.
pub open spec fn unconfigured_message(pin: Option<Seq<char>>) -> Seq<char> {
    match pin {
        Some(sel) => "a fonte pedida ("@ + sel + ") não está configurada em Configurações (Documentos → Catálogo CAE)."@,
        None => "URL de atualização do catálogo não configurado — defina-o em Configurações (Documentos → Catálogo CAE) ou na variável de ambiente CHANCELA_CAE_URL."@,
    }
}

/// The refusal of a refresh for which no source is configured: the pinned source, or the update
/// URL when none was pinned.
pub fn unconfigured_error(source: Option<&str>) -> (r: ApiError)
    ensures
        r.kind == ApiErrorKind::Unprocessable,
        r.code is None,
        r.message@ == unconfigured_message(match source {
            Some(s) => if trim(s@).len() == 0 {
                None
            } else {
                Some(trim(s@))
            },
            None => None,
        }),
{
    let pin = match source {
        Some(s) => {
            let t = trim_chars(s);
            if t.len() == 0 {
                None
            } else {
                Some(string_from_chars(&t))
            }
        },
        None => None,
    };
    match pin {
        Some(sel) => {
            let mut m = owned("a fonte pedida (");
            push_str(&mut m, sel.as_str());
            push_str(&mut m, ") não está configurada em Configurações (Documentos → Catálogo CAE).");
            ApiError::new(ApiErrorKind::Unprocessable, m)
        },
        None => ApiError::new(
            ApiErrorKind::Unprocessable,
            owned(
                "URL de atualização do catálogo não configurado — defina-o em Configurações (Documentos → Catálogo CAE) ou na variável de ambiente CHANCELA_CAE_URL.",
            ),
        ),
    }
}

/// How a catalog refresh proceeds.
#[derive(Debug, Clone, PartialEq, Eq)]
pub enum RefreshRoute {
    /// Refresh from the configured legacy source.
    LegacySource,
    /// Run the (selected) source chain.
    RunChain(Vec<usize>),
    /// Refresh from the legacy update URL.
    LegacyUrl(String),
    /// Run the default official chain.
    DefaultChain,
}

/// Filtering the positions `0..n` by a predicate that holds exactly below `p` keeps `0..min(n, p)`.
proof fn lemma_filter_positions_below(n: nat, p: nat, pred: spec_fn(int) -> bool)
    requires
        forall|i: int| 0 <= i < n ==> (#[trigger] pred(i) <==> i < p),
    ensures
        Seq::new(n, |i: int| i).filter(pred) == Seq::new(if n < p { n } else { p }, |i: int| i),
    decreases n,
{
    reveal(Seq::filter);
    if n > 0 {
        let m = (n - 1) as nat;
        assert(Seq::new(n, |i: int| i).drop_last() =~= Seq::new(m, |i: int| i));
        lemma_filter_positions_below(m, p, pred);
        if n <= p {
            assert(Seq::new(m, |i: int| i).push(m as int) =~= Seq::new(n, |i: int| i));
        }
    }
}

/// Filtering the positions `0..n` by a predicate that holds exactly from `p` on keeps `p..n`.
proof fn lemma_filter_positions_from(n: nat, p: nat, pred: spec_fn(int) -> bool)
    requires
        forall|i: int| 0 <= i < n ==> (#[trigger] pred(i) <==> i >= p),
    ensures
        Seq::new(n, |i: int| i).filter(pred) == Seq::new(if n < p { 0 } else { (n - p) as nat }, |i: int| p + i),
    decreases n,
{
    reveal(Seq::filter);
    if n > 0 {
        let m = (n - 1) as nat;
        assert(Seq::new(n, |i: int| i).drop_last() =~= Seq::new(m, |i: int| i));
        lemma_filter_positions_from(m, p, pred);
        if n > p {
            assert(Seq::new((m - p) as nat, |i: int| p + i).push(m as int) =~= Seq::new((n - p) as nat, |i: int| p + i));
        }
    }
}

/// **Selectors over a strict chain**: `official` keeps exactly the official prepend, in the
/// preferred order, and `mirror` exactly the mirrors that follow it.
pub proof fn lemma_strict_chain_selectors(official: bool, preferred: PreferredOfficialSource, kinds: Seq<ChainEntryKind>)
    requires
        kinds.len() >= official_prepend(official, preferred).len(),
        forall|i: int| 0 <= i < official_prepend(official, preferred).len() ==> kinds[i] == official_prepend(official, preferred)[i],
        forall|i: int| official_prepend(official, preferred).len() <= i < kinds.len() ==> kinds[i] == ChainEntryKind::Mirror,
    ensures
        selected_positions(kinds, "official"@) == Seq::new(official_prepend(official, preferred).len(), |i: int| i),
        selected_positions(kinds, "mirror"@) == Seq::new(
            (kinds.len() - official_prepend(official, preferred).len()) as nat,
            |i: int| official_prepend(official, preferred).len() + i,
        ),
{
    reveal_strlit("official");
    reveal_strlit("mirror");
    let p = official_prepend(official, preferred).len();
    let is_official = |i: int| kinds[i] == ChainEntryKind::Official || kinds[i] == ChainEntryKind::Ine;
    let is_mirror = |i: int| kinds[i] == ChainEntryKind::Mirror;
    lemma_filter_positions_below(kinds.len(), p, is_official);
    lemma_filter_positions_from(kinds.len(), p, is_mirror);
}

/// The trimmed source pin of a request, when it is not blank.
pub open spec fn source_pin(source: Option<&str>) -> Option<Seq<char>> {
    match source {
        Some(s) => if trim(s@).len() == 0 {
            None
        } else {
            Some(trim(s@))
        },
        None => None,
    }
}

/// Whether a (trimmed, non-blank) pin names a selector: `official`, `mirror` or an index.
pub open spec fn known_selector(sel: Seq<char>) -> bool {
    sel == "official"@ || sel == "mirror"@ || parse_usize_spec(sel) is Some
}

/// What a refresh does, given its source pin: an unknown selector is refused; a non-empty selection
/// runs exactly the selected positions; an empty selection is refused when a source was pinned, and
/// otherwise falls back to the legacy update URL when one is set, else to the default official chain.
pub open spec fn refresh_outcome(
    kinds: Seq<ChainEntryKind>,
    source: Option<&str>,
    settings_url: Option<String>,
    env_url: Option<String>,
    r: Result<RefreshRoute, ApiError>,
) -> bool {
    match source_pin(source) {
        Some(sel) => if !known_selector(sel) {
            refusal(r, ApiErrorKind::Unprocessable, bad_selector_message(sel))
        } else if selected_positions(kinds, sel).len() > 0 {
            r matches Ok(RefreshRoute::RunChain(v)) && v@.len() == selected_positions(kinds, sel).len()
                && forall|i: int| 0 <= i < v@.len() ==> v@[i] == selected_positions(kinds, sel)[i]
        } else {
            refusal(r, ApiErrorKind::Unprocessable, unconfigured_message(Some(sel)))
        },
        None => if kinds.len() > 0 {
            r matches Ok(RefreshRoute::RunChain(v)) && v@.len() == kinds.len() && forall|i: int|
                0 <= i < v@.len() ==> v@[i] == i
        } else {
            match non_blank(settings_url) {
                Some(t) => r matches Ok(RefreshRoute::LegacyUrl(u)) && u@ == t,
                None => match non_blank(env_url) {
                    Some(t) => r matches Ok(RefreshRoute::LegacyUrl(u)) && u@ == t,
                    None => r == Ok::<RefreshRoute, ApiError>(RefreshRoute::DefaultChain),
                },
            }
        },
    }
}

/// **The refresh route.** A configured legacy source always wins. Otherwise the selector narrows
/// the chain (an unknown selector is refused); a non-empty result is run; an empty result is
/// refused when a source was pinned, falls back to the legacy update URL when one is set, and to
/// the default official chain otherwise.
pub fn refresh_route(
    legacy_source: bool,
    kinds: &Vec<ChainEntryKind>,
    source: Option<&str>,
    settings_url: Option<String>,
    env_url: Option<String>,
) -> (r: Result<RefreshRoute, ApiError>)
    ensures
        legacy_source ==> r == Ok::<RefreshRoute, ApiError>(RefreshRoute::LegacySource),
        !legacy_source ==> refresh_outcome(kinds@, source, settings_url, env_url, r),
{
    if legacy_source {
        return Ok(RefreshRoute::LegacySource);
    }
    let has_pin = match source {
        Some(s) => trim_chars(s).len() > 0,
        None => false,
    };
    let selected = match select_source(kinds, source) {
        Ok(v) => v,
        Err(e) => {
            return Err(e);
        },
    };
    if selected.len() > 0 {
        return Ok(RefreshRoute::RunChain(selected));
    }
    if has_pin {
        return Err(unconfigured_error(source));
    }
    match resolve_cae_update_url(settings_url, env_url) {
        Some(u) => Ok(RefreshRoute::LegacyUrl(u)),
        None => Ok(RefreshRoute::DefaultChain),
    }
}

/// What a finished chain refresh answers.
#[derive(Debug, Clone, PartialEq, Eq)]
pub enum ChainRefreshOutcome {
    /// A source won: the catalog is replaced and the update is recorded.
    Updated(String),
    /// Some source answered validly but nothing changed.
    Unchanged,
    /// Every source failed: a bad-gateway answer listing the failures.
    AllFailed,
}

/// The outcome of a chain refresh from its winner (if any) and whether any source was valid.
pub fn chain_refresh_outcome(winner: Option<String>, any_valid: bool) -> (r: ChainRefreshOutcome)
    ensures
        match winner {
            Some(w) => r == ChainRefreshOutcome::Updated(w),
            None => r == (if any_valid {
                ChainRefreshOutcome::Unchanged
            } else {
                ChainRefreshOutcome::AllFailed
            }),
        },
{
    match winner {
        Some(w) => ChainRefreshOutcome::Updated(w),
        None => if any_valid {
            ChainRefreshOutcome::Unchanged
        } else {
            ChainRefreshOutcome::AllFailed
        },
    }
}

/// `POST /v1/cae/refresh`: an optional source selector.
#[derive(Debug, Clone)]
pub struct CaeRefreshQuery {
    pub source: Option<String>,
}

/// One source that failed during a refresh.
#[derive(Debug, Clone)]
pub struct CaeSourceFailureView {
    pub source: String,
    pub error: String,
}

/// One CAE revision as published.
#[derive(Debug, Clone)]
pub struct CaeVersionView {
    pub version: String,
    pub designation: String,
}

/// The currently published CAE revisions.
#[derive(Debug, Clone)]
pub struct CaeUpdatesView {
    pub rev3: CaeVersionView,
    pub rev4: CaeVersionView,
    pub checked_at: String,
}

} // verus!
