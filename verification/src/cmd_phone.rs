//! **The saved CMD signing phone number** of a user: its validation, its custody secret, the
//! per-user store of sealed numbers, and what the account page shows of it.
//!
//! A phone number is accepted as typed (trimmed, never reformatted) when it is at most 32
//! characters of digits, spaces, hyphens and parentheses, with an optional leading `+`, and holds
//! at least six digits. The number is stored sealed under a secret derived from the user's
//! attestation key, keyed by the user's id; a row that is not keyed by a UUID or lacks any sealed
//! part is dropped when the store is loaded.
use vstd::prelude::*;

use crate::cluster_shared_state::{uuid_parsed, uuid_text, uuid_to_string};
use crate::collection_page::{chars_before, hex_encode, hex_lower, sha256_of};
use crate::error::{ApiError, ApiErrorKind};
use crate::text::{chars_of, owned, string_from_chars, trim, trim_chars};

verus! {

/// The file the saved numbers live in.
pub const CMD_SAVED_PHONES_FILE: &'static str = "cmd-saved-phones.json";

/// The current format version of that file.
pub const CMD_SAVED_PHONES_SCHEMA_VERSION: u32 = 1;

/// The longest accepted phone number, in characters.
pub const MAX_PHONE_CHARS: usize = 32;

/// The fewest digits an accepted phone number holds.
pub const MIN_PHONE_DIGITS: usize = 6;

/// The code of a save attempted without an unlocked attestation key.
pub const CMD_PHONE_NO_UNLOCKED_KEY_CODE: &'static str = "cmd_phone_no_unlocked_key";

/// The code of a refused phone number.
pub const CMD_PHONE_INVALID_CODE: &'static str = "cmd_phone_invalid";

/// The code of a saved number sealed under a key the account no longer has.
pub const CMD_PHONE_UNREADABLE_CODE: &'static str = "cmd_phone_unreadable";

// =================================================================================================
// Validation
// =================================================================================================

/// Whether character `c` may stand at position `i` of a phone number.
pub open spec fn phone_char_ok(c: char, i: int) -> bool {
    (c == '+' && i == 0) || ('0' <= c && c <= '9') || c == ' ' || c == '-' || c == '(' || c == ')'
}

/// How many digits `s` holds.
pub open spec fn digit_count(s: Seq<char>) -> nat
    decreases s.len(),
{
    if s.len() == 0 {
        0
    } else {
        digit_count(s.drop_last()) + if '0' <= s.last() && s.last() <= '9' {
            1nat
        } else {
            0nat
        }
    }
}

/// Whether a trimmed phone number is accepted.
pub open spec fn phone_ok(t: Seq<char>) -> bool {
    &&& 0 < t.len() <= MAX_PHONE_CHARS
    &&& forall|i: int| 0 <= i < t.len() ==> phone_char_ok(#[trigger] t[i], i)
    &&& digit_count(t) >= MIN_PHONE_DIGITS
}

/// The message of a refused phone number.
pub open spec fn invalid_phone_message() -> Seq<char> {
    "número de telemóvel inválido: indique o número em formato internacional, por exemplo +351 900 000 000"@
}

/// The refusal of a phone number.
pub fn invalid_phone() -> (r: ApiError)
    ensures
        r.kind == ApiErrorKind::Unprocessable,
        r.message@ == invalid_phone_message(),
        r.code == Some(CMD_PHONE_INVALID_CODE),
{
    ApiError::new(
        ApiErrorKind::Unprocessable,
        owned(
            "número de telemóvel inválido: indique o número em formato internacional, por exemplo +351 900 000 000",
        ),
    ).with_code(CMD_PHONE_INVALID_CODE)
}

/// **Validate a typed phone number**: the trimmed text is accepted, unchanged, when it is not
/// empty, at most 32 characters, made only of digits, spaces, hyphens and parentheses (a `+` only
/// in front), and holds at least six digits; anything else is the `cmd_phone_invalid` refusal.
pub fn validate_phone(raw: &str) -> (r: Result<String, ApiError>)
    ensures
        phone_ok(trim(raw@)) <==> r is Ok,
        r matches Ok(s) ==> s@ == trim(raw@),
        r matches Err(e) ==> e.kind == ApiErrorKind::Unprocessable && e.message@
            == invalid_phone_message() && e.code == Some(CMD_PHONE_INVALID_CODE),
{
    let t = trim_chars(raw);
    if t.len() == 0 || t.len() > MAX_PHONE_CHARS {
        return Err(invalid_phone());
    }
    let mut digits: usize = 0;
    let mut i: usize = 0;
    while i < t.len()
        invariant
            0 <= i <= t@.len(),
            t@ == trim(raw@),
            t@.len() <= MAX_PHONE_CHARS,
            digits == digit_count(t@.take(i as int)),
            digits <= i,
            forall|j: int| 0 <= j < i ==> phone_char_ok(#[trigger] t@[j], j),
        decreases t.len() - i,
    {
        let c = t[i];
        proof {
            assert(t@.take(i + 1).drop_last() =~= t@.take(i as int));
        }
        if c == '+' && i == 0 {
        } else if '0' <= c && c <= '9' {
            digits += 1;
        } else if c == ' ' || c == '-' || c == '(' || c == ')' {
        } else {
            assert(!phone_char_ok(t@[i as int], i as int));
            return Err(invalid_phone());
        }
        i += 1;
    }
    assert(t@.take(t@.len() as int) =~= t@);
    if digits < MIN_PHONE_DIGITS {
        return Err(invalid_phone());
    }
    Ok(string_from_chars(&t))
}

// =================================================================================================
// Custody secret
// =================================================================================================

/// The domain tag of the custody secret.
pub open spec fn custody_tag() -> Seq<u8> {
    "chancela.cmd.phone.custody.v1"@.map_values(|c: char| c as u8)
}

/// The custody secret of an attestation key: the lowercase hex SHA-256 of a domain tag followed
/// by the key's bytes.
pub fn custody_secret(key_bytes: &[u8]) -> (r: String)
    ensures
        r@ == hex_lower(sha256_of(vstd::utf8::encode_utf8("chancela.cmd.phone.custody.v1"@) + key_bytes@)),
{
    let tag = "chancela.cmd.phone.custody.v1".as_bytes();
    let mut msg: Vec<u8> = Vec::new();
    let mut i: usize = 0;
    while i < tag.len()
        invariant
            0 <= i <= tag@.len(),
            msg@ == tag@.take(i as int),
        decreases tag.len() - i,
    {
        msg.push(tag[i]);
        assert(msg@ =~= tag@.take(i + 1));
        i += 1;
    }
    let mut j: usize = 0;
    while j < key_bytes.len()
        invariant
            0 <= j <= key_bytes@.len(),
            msg@ == tag@ + key_bytes@.take(j as int),
        decreases key_bytes.len() - j,
    {
        msg.push(key_bytes[j]);
        assert(msg@ =~= tag@ + key_bytes@.take(j + 1));
        j += 1;
    }
    assert(tag@.take(tag@.len() as int) =~= tag@);
    assert(key_bytes@.take(key_bytes@.len() as int) =~= key_bytes@);
    let digest = crate::collection_page::sha256_digest(msg.as_slice());
    hex_encode(&digest)
}

// =================================================================================================
// The store of saved numbers
// =================================================================================================

/// A sealed secret: the KDF salt, the nonce and the ciphertext.
#[derive(Debug, Clone, PartialEq, Eq)]
pub struct SealedSecret {
    pub kdf_salt: String,
    pub nonce: String,
    pub ciphertext: String,
}

/// One user's saved number: the fingerprint of the key it was sealed under, the sealed number and
/// when it was saved.
#[derive(Debug, Clone, PartialEq, Eq)]
pub struct SavedCmdPhone {
    pub key_fingerprint: String,
    pub sealed: SealedSecret,
    pub saved_at: String,
}

/// Whether a saved row is complete: a key fingerprint and every sealed part present.
pub open spec fn well_formed_row(s: SavedCmdPhone) -> bool {
    s.key_fingerprint@.len() > 0 && s.sealed.ciphertext@.len() > 0 && s.sealed.nonce@.len() > 0
        && s.sealed.kdf_salt@.len() > 0
}

impl SavedCmdPhone {
    /// Whether the row is complete.
    pub fn is_well_formed(&self) -> (r: bool)
        ensures
            r == well_formed_row(*self),
    {
        !self.key_fingerprint.as_str().is_empty() && !self.sealed.ciphertext.as_str().is_empty()
            && !self.sealed.nonce.as_str().is_empty() && !self.sealed.kdf_salt.as_str().is_empty()
    }
}

/// The saved numbers of all users, keyed by user id text, in ascending key order.
#[derive(Debug, Clone)]
pub struct SavedCmdPhoneStore {
    pub schema_version: u32,
    pub users: Vec<(String, SavedCmdPhone)>,
}

/// Whether the keys are strictly ascending (hence distinct).
pub open spec fn keys_ascending(users: Seq<(String, SavedCmdPhone)>) -> bool {
    forall|i: int, j: int|
        0 <= i < j < users.len() ==> chars_before(#[trigger] users[i].0@, #[trigger] users[j].0@)
}

/// Whether the store holds a row under `key`.
pub open spec fn has_key(users: Seq<(String, SavedCmdPhone)>, key: Seq<char>) -> bool {
    exists|i: int| 0 <= i < users.len() && (#[trigger] users[i]).0@ == key
}

/// Whether the store holds row `v` under `key`.
pub open spec fn has_entry(users: Seq<(String, SavedCmdPhone)>, key: Seq<char>, v: SavedCmdPhone) -> bool {
    exists|i: int| 0 <= i < users.len() && (#[trigger] users[i]).0@ == key && users[i].1 == v
}

/// **A key holds one row**: in a store whose keys ascend, the row found under a user's key is the
/// row saved there — so `get` after `set` answers the saved row, and after `clear` answers none.
pub proof fn lemma_one_row_per_key(
    users: Seq<(String, SavedCmdPhone)>,
    key: Seq<char>,
    a: SavedCmdPhone,
    b: SavedCmdPhone,
)
    requires
        keys_ascending(users),
        has_entry(users, key, a),
        has_entry(users, key, b),
    ensures
        a == b,
{
    let i = choose|i: int| 0 <= i < users.len() && (#[trigger] users[i]).0@ == key && users[i].1 == a;
    let j = choose|j: int| 0 <= j < users.len() && (#[trigger] users[j]).0@ == key && users[j].1 == b;
    if i != j {
        crate::collection_page::lemma_before_irreflexive(key);
        if i < j {
            assert(chars_before(users[i].0@, users[j].0@));
        } else {
            assert(chars_before(users[j].0@, users[i].0@));
        }
    }
}

/// Whether a loaded row can be kept: keyed by a UUID, and complete.
pub open spec fn loadable(e: (String, SavedCmdPhone)) -> bool {
    uuid_parsed(e.0@) is Some && well_formed_row(e.1)
}

/// The row that loading `rows` keeps under `key`: the last loadable one with that key.
pub open spec fn last_loadable(rows: Seq<(String, SavedCmdPhone)>, key: Seq<char>) -> Option<SavedCmdPhone>
    decreases rows.len(),
{
    if rows.len() == 0 {
        None
    } else if loadable(rows.last()) && rows.last().0@ == key {
        Some(rows.last().1)
    } else {
        last_loadable(rows.drop_last(), key)
    }
}

impl SavedCmdPhoneStore {
    /// The store's invariant: its keys strictly ascend, so each key holds one row.
    pub open spec fn well_formed(&self) -> bool {
        keys_ascending(self.users@)
    }

    /// An empty store of the current version.
    pub fn new() -> (r: SavedCmdPhoneStore)
        ensures
            r.schema_version == CMD_SAVED_PHONES_SCHEMA_VERSION,
            r.users@.len() == 0,
            r.well_formed(),
    {
        SavedCmdPhoneStore { schema_version: CMD_SAVED_PHONES_SCHEMA_VERSION, users: Vec::new() }
    }

    /// The position of `key`, or where it would go.
    fn locate(&self, key: &Vec<char>) -> (r: (usize, bool))
        requires
            keys_ascending(self.users@),
        ensures
            r.0 <= self.users@.len(),
            forall|m: int| 0 <= m < r.0 ==> chars_before((#[trigger] self.users@[m]).0@, key@),
            r.1 == (r.0 < self.users@.len() && self.users@[r.0 as int].0@ == key@),
            !r.1 ==> forall|m: int| r.0 <= m < self.users@.len() ==> chars_before(key@, (#[trigger] self.users@[m]).0@),
    {
        let mut i: usize = 0;
        while i < self.users.len() && crate::collection_page::text_before(&chars_of(self.users[i].0.as_str()), key)
            invariant
                0 <= i <= self.users@.len(),
                forall|m: int| 0 <= m < i ==> chars_before((#[trigger] self.users@[m]).0@, key@),
            decreases self.users.len() - i,
        {
            i += 1;
        }
        let found = i < self.users.len() && crate::text::str_eq(self.users[i].0.as_str(), string_from_chars(key).as_str());
        proof {
            if !found && i < self.users@.len() {
                let k0 = self.users@[i as int].0@;
                if !chars_before(key@, k0) {
                    crate::collection_page::lemma_before_total(k0, key@);
                }
                assert forall|m: int| i <= m < self.users@.len() implies chars_before(key@, (#[trigger] self.users@[m]).0@) by {
                    if m > i {
                        crate::collection_page::lemma_before_transitive(key@, k0, self.users@[m].0@);
                    }
                }
            }
        }
        (i, found)
    }

    /// The saved row of a user.
    pub fn get(&self, user_id: u128) -> (r: Option<&SavedCmdPhone>)
        requires
            self.well_formed(),
        ensures
            match r {
                Some(v) => has_entry(self.users@, uuid_text(user_id), *v),
                None => !has_key(self.users@, uuid_text(user_id)),
            },
    {
        let key = chars_of(uuid_to_string(user_id).as_str());
        let (i, found) = self.locate(&key);
        if found {
            Some(&self.users[i].1)
        } else {
            proof {
                assert forall|m: int| 0 <= m < self.users@.len() implies (#[trigger] self.users@[m]).0@ != key@ by {
                    crate::collection_page::lemma_before_irreflexive(key@);
                }
            }
            None
        }
    }

    /// Keep `saved` under `key_text`, replacing what was there; every other row stays.
    fn put(&mut self, key_text: String, saved: SavedCmdPhone)
        requires
            keys_ascending(old(self).users@),
        ensures
            final(self).schema_version == old(self).schema_version,
            keys_ascending(final(self).users@),
            has_entry(final(self).users@, key_text@, saved),
            forall|k: Seq<char>| k != key_text@ ==> (has_key(final(self).users@, k) <==> has_key(old(self).users@, k)),
            forall|k: Seq<char>, v: SavedCmdPhone|
                k != key_text@ ==> (has_entry(final(self).users@, k, v) <==> has_entry(old(self).users@, k, v)),
    {
        let ghost kt = key_text@;
        let key = chars_of(key_text.as_str());
        let (i, found) = self.locate(&key);
        let ghost before = self.users@;
        let ghost saved_v = saved;
        if found {
            self.users.set(i, (key_text, saved));
            proof {
                assert forall|a: int, b: int| 0 <= a < b < self.users@.len() implies chars_before(
                    #[trigger] self.users@[a].0@,
                    #[trigger] self.users@[b].0@,
                ) by {
                    assert(before[a].0@ == self.users@[a].0@ || a == i);
                    assert(before[b].0@ == self.users@[b].0@ || b == i);
                    assert(before[i as int].0@ == key@);
                    assert(chars_before(before[a].0@, before[b].0@));
                }
                assert(self.users@[i as int].0@ == kt);
                assert forall|k: Seq<char>| k != kt implies (has_key(self.users@, k) <==> has_key(before, k)) by {
                    if has_key(before, k) {
                        let m = choose|m: int| 0 <= m < before.len() && (#[trigger] before[m]).0@ == k;
                        assert(self.users@[m].0@ == k);
                    }
                    if has_key(self.users@, k) {
                        let m = choose|m: int| 0 <= m < self.users@.len() && (#[trigger] self.users@[m]).0@ == k;
                        assert(before[m].0@ == k);
                    }
                }
                assert forall|k: Seq<char>, v: SavedCmdPhone| k != kt implies (has_entry(self.users@, k, v) <==> has_entry(before, k, v)) by {
                    if has_entry(before, k, v) {
                        let m = choose|m: int| 0 <= m < before.len() && (#[trigger] before[m]).0@ == k && before[m].1 == v;
                        assert(self.users@[m] == before[m]);
                    }
                    if has_entry(self.users@, k, v) {
                        let m = choose|m: int| 0 <= m < self.users@.len() && (#[trigger] self.users@[m]).0@ == k && self.users@[m].1 == v;
                        assert(self.users@[m] == before[m]);
                    }
                }
                assert(has_entry(self.users@, kt, saved_v)) by {
                    assert(self.users@[i as int].1 == saved_v);
                }
            }
        } else {
            self.users.insert(i, (key_text, saved));
            proof {
                assert(self.users@ =~= before.take(i as int) + seq![self.users@[i as int]] + before.skip(i as int));
                assert forall|a: int, b: int| 0 <= a < b < self.users@.len() implies chars_before(
                    #[trigger] self.users@[a].0@,
                    #[trigger] self.users@[b].0@,
                ) by {
                    if b < i {
                        assert(self.users@[a] == before[a] && self.users@[b] == before[b]);
                    } else if b == i {
                        assert(self.users@[a] == before[a]);
                    } else if a < i {
                        assert(self.users@[a] == before[a] && self.users@[b] == before[b - 1]);
                        crate::collection_page::lemma_before_transitive(before[a].0@, key@, before[b - 1].0@);
                    } else if a == i {
                        assert(self.users@[b] == before[b - 1]);
                    } else {
                        assert(self.users@[a] == before[a - 1] && self.users@[b] == before[b - 1]);
                    }
                }
                assert forall|k: Seq<char>| k != kt implies (has_key(self.users@, k) <==> has_key(before, k)) by {
                    if has_key(before, k) {
                        let m = choose|m: int| 0 <= m < before.len() && (#[trigger] before[m]).0@ == k;
                        if m < i {
                            assert(self.users@[m] == before[m]);
                        } else {
                            assert(self.users@[m + 1] == before[m]);
                        }
                    }
                    if has_key(self.users@, k) {
                        let m = choose|m: int| 0 <= m < self.users@.len() && (#[trigger] self.users@[m]).0@ == k;
                        if m < i {
                            assert(self.users@[m] == before[m]);
                        } else if m > i {
                            assert(self.users@[m] == before[m - 1]);
                        }
                    }
                }
                assert forall|k: Seq<char>, v: SavedCmdPhone| k != kt implies (has_entry(self.users@, k, v) <==> has_entry(before, k, v)) by {
                    if has_entry(before, k, v) {
                        let m = choose|m: int| 0 <= m < before.len() && (#[trigger] before[m]).0@ == k && before[m].1 == v;
                        if m < i {
                            assert(self.users@[m] == before[m]);
                        } else {
                            assert(self.users@[m + 1] == before[m]);
                        }
                    }
                    if has_entry(self.users@, k, v) {
                        let m = choose|m: int| 0 <= m < self.users@.len() && (#[trigger] self.users@[m]).0@ == k && self.users@[m].1 == v;
                        if m < i {
                            assert(self.users@[m] == before[m]);
                        } else if m > i {
                            assert(self.users@[m] == before[m - 1]);
                        }
                    }
                }
                assert(has_entry(self.users@, kt, saved_v)) by {
                    assert(self.users@[i as int].1 == saved_v);
                }
            }
        }
    }

    /// Save (or replace) a user's row; the store takes the current version.
    pub fn set(&mut self, user_id: u128, saved: SavedCmdPhone)
        requires
            old(self).well_formed(),
        ensures
            final(self).schema_version == CMD_SAVED_PHONES_SCHEMA_VERSION,
            final(self).well_formed(),
            has_entry(final(self).users@, uuid_text(user_id), saved),
            forall|k: Seq<char>| k != uuid_text(user_id) ==> (has_key(final(self).users@, k) <==> has_key(old(self).users@, k)),
            forall|k: Seq<char>, v: SavedCmdPhone|
                k != uuid_text(user_id) ==> (has_entry(final(self).users@, k, v) <==> has_entry(old(self).users@, k, v)),
    {
        self.schema_version = CMD_SAVED_PHONES_SCHEMA_VERSION;
        self.put(uuid_to_string(user_id), saved);
    }

    /// Drop a user's row; answers whether there was one. The store takes the current version.
    pub fn clear(&mut self, user_id: u128) -> (r: bool)
        requires
            old(self).well_formed(),
        ensures
            r == has_key(old(self).users@, uuid_text(user_id)),
            final(self).schema_version == CMD_SAVED_PHONES_SCHEMA_VERSION,
            final(self).well_formed(),
            !has_key(final(self).users@, uuid_text(user_id)),
            forall|k: Seq<char>, v: SavedCmdPhone|
                k != uuid_text(user_id) ==> (has_entry(final(self).users@, k, v) <==> has_entry(old(self).users@, k, v)),
    {
        self.schema_version = CMD_SAVED_PHONES_SCHEMA_VERSION;
        let key = chars_of(uuid_to_string(user_id).as_str());
        let (i, found) = self.locate(&key);
        let ghost before = self.users@;
        if !found {
            proof {
                assert forall|m: int| 0 <= m < before.len() implies (#[trigger] before[m]).0@ != key@ by {
                    crate::collection_page::lemma_before_irreflexive(key@);
                }
            }
            return false;
        }
        self.users.remove(i);
        proof {
            assert(self.users@ =~= before.take(i as int) + before.skip(i + 1));
            assert forall|a: int, b: int| 0 <= a < b < self.users@.len() implies chars_before(
                #[trigger] self.users@[a].0@,
                #[trigger] self.users@[b].0@,
            ) by {
                if b < i {
                    assert(self.users@[a] == before[a] && self.users@[b] == before[b]);
                } else if a < i {
                    assert(self.users@[a] == before[a] && self.users@[b] == before[b + 1]);
                } else {
                    assert(self.users@[a] == before[a + 1] && self.users@[b] == before[b + 1]);
                }
            }
            assert forall|m: int| 0 <= m < self.users@.len() implies (#[trigger] self.users@[m]).0@ != key@ by {
                crate::collection_page::lemma_before_irreflexive(key@);
                if m < i {
                    assert(self.users@[m] == before[m]);
                    assert(chars_before(before[m].0@, before[i as int].0@));
                } else {
                    assert(self.users@[m] == before[m + 1]);
                    assert(chars_before(before[i as int].0@, before[m + 1].0@));
                }
            }
            assert forall|k: Seq<char>, v: SavedCmdPhone| k != uuid_text(user_id) implies (has_entry(self.users@, k, v) <==> has_entry(before, k, v)) by {
                if has_entry(before, k, v) {
                    let m = choose|m: int| 0 <= m < before.len() && (#[trigger] before[m]).0@ == k && before[m].1 == v;
                    if m < i {
                        assert(self.users@[m] == before[m]);
                    } else {
                        assert(m != i);
                        assert(self.users@[m - 1] == before[m]);
                    }
                }
                if has_entry(self.users@, k, v) {
                    let m = choose|m: int| 0 <= m < self.users@.len() && (#[trigger] self.users@[m]).0@ == k && self.users@[m].1 == v;
                    if m < i {
                        assert(self.users@[m] == before[m]);
                    } else {
                        assert(self.users@[m] == before[m + 1]);
                    }
                }
            }
        }
        true
    }

    /// The store as loaded: the current version, keeping only the complete rows keyed by a UUID,
    /// one per key (the last one for a key, as a keyed map keeps it), in ascending key order.
    pub fn sanitized(self) -> (r: SavedCmdPhoneStore)
        ensures
            r.schema_version == CMD_SAVED_PHONES_SCHEMA_VERSION,
            r.well_formed(),
            forall|k: Seq<char>, v: SavedCmdPhone| #[trigger] has_entry(r.users@, k, v) <==> last_loadable(self.users@, k) == Some(v),
            forall|k: Seq<char>| #[trigger] has_key(r.users@, k) <==> last_loadable(self.users@, k) is Some,
    {
        let ghost src = self.users@;
        let mut out = SavedCmdPhoneStore::new();
        for e in it: self.users.into_iter()
            invariant
                it.seq() == src,
                out.schema_version == CMD_SAVED_PHONES_SCHEMA_VERSION,
                keys_ascending(out.users@),
                forall|k: Seq<char>, v: SavedCmdPhone| #[trigger] has_entry(out.users@, k, v) <==> last_loadable(src.take(it.index() as int), k) == Some(v),
                forall|k: Seq<char>| #[trigger] has_key(out.users@, k) <==> last_loadable(src.take(it.index() as int), k) is Some,
        {
            let ghost i = it.index() as int;
            let ghost pre = src.take(i);
            let ghost cur = src.take(i + 1);
            proof {
                assert(cur.drop_last() =~= pre);
                assert(cur.last() == e);
            }
            let keyed = crate::cluster_shared_state::parse_uuid(e.0.as_str()).is_some();
            if keyed && e.1.is_well_formed() {
                let ghost kt = e.0@;
                let ghost row = e.1;
                let ghost before = out.users@;
                out.put(e.0, e.1);
                proof {
                    assert(last_loadable(cur, kt) == Some(row));
                    assert forall|k: Seq<char>, v: SavedCmdPhone| #[trigger] has_entry(out.users@, k, v) <==> last_loadable(cur, k) == Some(v) by {
                        if k == kt {
                            if has_entry(out.users@, k, v) {
                                lemma_one_row_per_key(out.users@, kt, v, row);
                            }
                        } else {
                            assert(last_loadable(cur, k) == last_loadable(pre, k));
                        }
                    }
                    assert forall|k: Seq<char>| #[trigger] has_key(out.users@, k) <==> last_loadable(cur, k) is Some by {
                        if k == kt {
                            let w = choose|w: int| 0 <= w < out.users@.len() && (#[trigger] out.users@[w]).0@ == kt && out.users@[w].1 == row;
                            assert(out.users@[w].0@ == k);
                        } else {
                            assert(last_loadable(cur, k) == last_loadable(pre, k));
                        }
                    }
                }
            } else {
                proof {
                    assert forall|k: Seq<char>| #[trigger] last_loadable(cur, k) == last_loadable(pre, k) by {}
                }
            }
        }
        proof {
            assert(src.take(src.len() as int) =~= src);
        }
        out
    }
}

// =================================================================================================
// Reading and saving
// =================================================================================================

/// What the account page shows of the saved number.
#[derive(Debug, Clone, PartialEq, Eq)]
pub struct SavedCmdPhoneView {
    pub saved: bool,
    pub saved_at: Option<String>,
    pub phone: Option<String>,
    pub readable: bool,
}

impl SavedCmdPhoneView {
    /// Nothing saved.
    pub fn empty() -> (r: SavedCmdPhoneView)
        ensures
            !r.saved,
            r.saved_at is None,
            r.phone is None,
            !r.readable,
    {
        SavedCmdPhoneView { saved: false, saved_at: None, phone: None, readable: false }
    }

    /// The view of a saved number: nothing when none is saved; without the number when the key is
    /// not unlocked in the session; with the number (and readable) when it opened.
    pub fn of_saved(saved_at: Option<String>, key_unlocked: bool, phone: Option<String>) -> (r: SavedCmdPhoneView)
        ensures
            match saved_at {
                None => !r.saved && r.saved_at is None && r.phone is None && !r.readable,
                Some(at) => r.saved && r.saved_at == Some(at) && if key_unlocked {
                    r.phone == phone && r.readable == phone is Some
                } else {
                    r.phone is None && !r.readable
                },
            },
    {
        match saved_at {
            None => SavedCmdPhoneView::empty(),
            Some(at) => {
                if key_unlocked {
                    let readable = phone.is_some();
                    SavedCmdPhoneView { saved: true, saved_at: Some(at), phone, readable }
                } else {
                    SavedCmdPhoneView { saved: true, saved_at: Some(at), phone: None, readable: false }
                }
            },
        }
    }
}

/// `PUT /v1/me/cmd-phone`: the number to save, or none to forget the saved one.
#[derive(Debug, Clone, Default)]
pub struct SaveCmdPhone {
    pub phone: Option<String>,
}

/// The refusal of a save attempted without the attestation key unlocked in the session.
pub fn no_unlocked_key() -> (r: ApiError)
    ensures
        r.kind == ApiErrorKind::Forbidden,
        r.code == Some(CMD_PHONE_NO_UNLOCKED_KEY_CODE),
        r.message@ == "para guardar o número, volte a autenticar-se com a palavra-passe: o número é cifrado com a chave de atestação, que tem de estar aberta na sessão"@,
{
    ApiError::new(
        ApiErrorKind::Forbidden,
        owned(
            "para guardar o número, volte a autenticar-se com a palavra-passe: o número é cifrado com a chave de atestação, que tem de estar aberta na sessão",
        ),
    ).with_code(CMD_PHONE_NO_UNLOCKED_KEY_CODE)
}

/// The refusal of a saved number sealed under a key the account no longer has.
pub fn unreadable_phone() -> (r: ApiError)
    ensures
        r.kind == ApiErrorKind::Conflict,
        r.code == Some(CMD_PHONE_UNREADABLE_CODE),
        r.message@ == "o número guardado foi cifrado com uma chave de atestação que esta conta já não tem; volte a guardá-lo"@,
{
    ApiError::new(
        ApiErrorKind::Conflict,
        owned(
            "o número guardado foi cifrado com uma chave de atestação que esta conta já não tem; volte a guardá-lo",
        ),
    ).with_code(CMD_PHONE_UNREADABLE_CODE)
}

/// What saving does with a request, before any sealing: no number means forget the saved one
/// (`Ok(None)`); a number is validated, and then needs the attestation key unlocked.
pub fn save_decision(req: &SaveCmdPhone, key_unlocked: bool) -> (r: Result<Option<String>, ApiError>)
    ensures
        match req.phone {
            None => r == Ok::<Option<String>, ApiError>(None),
            Some(p) => if !phone_ok(trim(p@)) {
                r matches Err(e) && e.code == Some(CMD_PHONE_INVALID_CODE) && e.message@ == invalid_phone_message()
            } else if !key_unlocked {
                r matches Err(e) && e.code == Some(CMD_PHONE_NO_UNLOCKED_KEY_CODE)
            } else {
                r matches Ok(Some(s)) && s@ == trim(p@)
            },
        },
{
    match &req.phone {
        None => Ok(None),
        Some(p) => {
            let phone = match validate_phone(p.as_str()) {
                Ok(v) => v,
                Err(e) => {
                    return Err(e);
                },
            };
            if !key_unlocked {
                return Err(no_unlocked_key());
            }
            Ok(Some(phone))
        },
    }
}

} // verus!
