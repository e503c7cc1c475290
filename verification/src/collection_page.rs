//! **Bounded collection pages** for the large directory endpoints.
//!
//! A page request carries an optional free-text search, an offset or an opaque keyset cursor, a
//! limit that the server caps, a sort key and an order. A page carries at most `limit` items and
//! says whether more follow; offset callers get the next offset, cursor callers an opaque cursor.
//!
//! The cursor is the base64url (no padding) text of a small JSON envelope: version, collection,
//! query fingerprint, `(key, id)` position and an unkeyed integrity digest. A cursor resumes only
//! the collection and query it was issued for; anything else is refused with one message. The
//! envelope's JSON text is written here; reading JSON back into an envelope is the caller's parse
//! function, and everything decided about the envelope afterwards is checked here.
use vstd::prelude::*;

use base64::engine::general_purpose::URL_SAFE_NO_PAD;
use base64::Engine;
use sha2::{Digest, Sha256};
use unicode_normalization::UnicodeNormalization;

use crate::error::{ApiError, ApiErrorKind};
use crate::text::{chars_of, dec_nat, owned, push_str, string_from_chars, trim, trim_chars, u64_to_string};

verus! {

/// Page size when the request names none.
pub const DEFAULT_PAGE_LIMIT: usize = 50;

/// The server's hard ceiling on a page.
pub const MAX_PAGE_LIMIT: usize = 200;

/// The cursor envelope format version.
pub const CURSOR_VERSION: u8 = 1;

/// The longest cursor text accepted, in bytes.
pub const MAX_CURSOR_BYTES: usize = 2048;

// =================================================================================================
// Outside computations: digest, base64url, Unicode folding
// =================================================================================================

/// The SHA-256 digest of `bytes`.
pub uninterp spec fn sha256_of(bytes: Seq<u8>) -> Seq<u8>;

/// `sha2::Sha256::digest`: the 32-byte SHA-256 digest of `bytes`. The contract names the digest
/// and says nothing more of it.
#[verifier::external_body]
pub(crate) fn sha256_digest(bytes: &[u8]) -> (r: [u8; 32])
    ensures
        r@ == sha256_of(bytes@),
{
    Sha256::digest(bytes).into()
}

/// The base64url text (no padding) of `bytes`.
pub uninterp spec fn b64_url_encoded(bytes: Seq<u8>) -> Seq<char>;

/// The bytes a base64url text (no padding) decodes to, or `None` when it is not such a text.
pub uninterp spec fn b64_url_decoded(text: Seq<char>) -> Option<Seq<u8>>;

/// `URL_SAFE_NO_PAD.encode` of the `base64` crate. The contract names the text and states that
/// decoding it with the same engine gives the bytes back, as the engine documents.
#[verifier::external_body]
fn b64_url_encode(bytes: &[u8]) -> (r: String)
    ensures
        r@ == b64_url_encoded(bytes@),
        b64_url_decoded(r@) == Some(bytes@),
{
    URL_SAFE_NO_PAD.encode(bytes)
}

/// `URL_SAFE_NO_PAD.decode` of the `base64` crate, with its error dropped. The contract names the
/// outcome and says nothing more of it.
#[verifier::external_body]
fn b64_url_decode(text: &str) -> (r: Option<Vec<u8>>)
    ensures
        match r {
            Some(b) => b64_url_decoded(text@) == Some(b@),
            None => b64_url_decoded(text@) is None,
        },
{
    URL_SAFE_NO_PAD.decode(text).ok()
}

/// The canonical decomposition (NFD) of `s`.
pub uninterp spec fn nfd_of(s: Seq<char>) -> Seq<char>;

/// `UnicodeNormalization::nfd` of the `unicode-normalization` crate, collected. The contract
/// names the decomposition and says nothing more of it.
#[verifier::external_body]
fn nfd_chars(s: &str) -> (r: Vec<char>)
    ensures
        r@ == nfd_of(s@),
{
    s.nfd().collect()
}

/// Whether `c` is a Unicode combining mark.
pub uninterp spec fn combining_mark(c: char) -> bool;

/// `unicode_normalization::char::is_combining_mark`. The contract names the answer and says
/// nothing more of it.
#[verifier::external_body]
fn is_combining_mark(c: char) -> (r: bool)
    ensures
        r == combining_mark(c),
{
    unicode_normalization::char::is_combining_mark(c)
}

/// The Unicode lowercase mapping of `c` (one or more characters).
pub uninterp spec fn lowercase_of(c: char) -> Seq<char>;

/// `char::to_lowercase` of std, collected. The contract names the mapping and says nothing more
/// of it.
#[verifier::external_body]
fn char_lowercase(c: char) -> (r: Vec<char>)
    ensures
        r@ == lowercase_of(c),
{
    c.to_lowercase().collect()
}

// =================================================================================================
// Lexicographic order on text
// =================================================================================================

/// Whether `a` sorts strictly before `b`: lexicographic order on Unicode scalar values, which is
/// the order of `Ord` on `str` (UTF-8 preserves code-point order).
pub open spec fn chars_before(a: Seq<char>, b: Seq<char>) -> bool
    decreases a.len(),
{
    if a.len() == 0 {
        b.len() > 0
    } else if b.len() == 0 {
        false
    } else if a[0] != b[0] {
        (a[0] as u32) < (b[0] as u32)
    } else {
        chars_before(a.drop_first(), b.drop_first())
    }
}

/// Whether `a` sorts strictly before `b` (`a < b` on `str`).
pub fn text_before(a: &Vec<char>, b: &Vec<char>) -> (r: bool)
    ensures
        r == chars_before(a@, b@),
{
    let mut i: usize = 0;
    assert(a@.skip(0) =~= a@);
    assert(b@.skip(0) =~= b@);
    while i < a.len() && i < b.len() && a[i] == b[i]
        invariant
            0 <= i <= a@.len(),
            i <= b@.len(),
            chars_before(a@, b@) == chars_before(a@.skip(i as int), b@.skip(i as int)),
        decreases a.len() - i,
    {
        proof {
            assert(a@.skip(i as int).drop_first() =~= a@.skip(i + 1));
            assert(b@.skip(i as int).drop_first() =~= b@.skip(i + 1));
        }
        i += 1;
    }
    if i == a.len() {
        i < b.len()
    } else if i == b.len() {
        false
    } else {
        (a[i] as u32) < (b[i] as u32)
    }
}

// =================================================================================================
// Query fingerprint
// =================================================================================================

/// A query dimension's name and value, as text.
pub type FieldText = (Seq<char>, Seq<char>);

/// The names and values of a field list.
pub open spec fn fields_text<'a>(fields: Seq<(&'a str, String)>) -> Seq<FieldText> {
    Seq::new(fields.len(), |i: int| (fields[i].0@, fields[i].1@))
}

/// Where a field named `name` goes in an already sorted list so that the sort stays stable: after
/// every field whose name does not sort after it.
pub open spec fn insertion_point(s: Seq<FieldText>, name: Seq<char>) -> nat
    decreases s.len(),
{
    if s.len() == 0 || !chars_before(name, s.last().0) {
        s.len()
    } else {
        insertion_point(s.drop_last(), name)
    }
}

/// `s` with `x` inserted at its stable place.
pub open spec fn insert_stable(s: Seq<FieldText>, x: FieldText) -> Seq<FieldText> {
    let p = insertion_point(s, x.0) as int;
    s.take(p) + seq![x] + s.skip(p)
}

/// The fields stably sorted by name (equal names keep their order).
pub open spec fn stable_sorted(s: Seq<FieldText>) -> Seq<FieldText>
    decreases s.len(),
{
    if s.len() == 0 {
        s
    } else {
        insert_stable(stable_sorted(s.drop_last()), s.last())
    }
}

/// The UTF-8 bytes of a text.
pub open spec fn utf8(s: Seq<char>) -> Seq<u8> {
    vstd::utf8::encode_utf8(s)
}

/// The eight big-endian bytes of `n`.
pub open spec fn be8(n: nat) -> Seq<u8> {
    seq![
        (n / 0x100000000000000 % 256) as u8,
        (n / 0x1000000000000 % 256) as u8,
        (n / 0x10000000000 % 256) as u8,
        (n / 0x100000000 % 256) as u8,
        (n / 0x1000000 % 256) as u8,
        (n / 0x10000 % 256) as u8,
        (n / 0x100 % 256) as u8,
        (n % 256) as u8,
    ]
}

/// One field, length-prefixed so that no value can be mistaken for a delimiter.
pub open spec fn frame_field(f: FieldText) -> Seq<u8> {
    be8(utf8(f.0).len()) + utf8(f.0) + be8(utf8(f.1).len()) + utf8(f.1)
}

/// All fields, framed in order.
pub open spec fn frame_fields(s: Seq<FieldText>) -> Seq<u8>
    decreases s.len(),
{
    if s.len() == 0 {
        Seq::empty()
    } else {
        frame_fields(s.drop_last()) + frame_field(s.last())
    }
}

/// The lowercase hexadecimal digit of `n < 16`.
pub open spec fn hex_digit(n: nat) -> char {
    if n < 10 {
        (('0' as u32) + n) as char
    } else {
        (('a' as u32) + n - 10) as char
    }
}

/// Lowercase hexadecimal text of `bytes`, two digits each.
pub open spec fn hex_lower(bytes: Seq<u8>) -> Seq<char>
    decreases bytes.len(),
{
    if bytes.len() == 0 {
        Seq::empty()
    } else {
        hex_lower(bytes.drop_last()) + seq![
            hex_digit((bytes.last() / 16) as nat),
            hex_digit((bytes.last() % 16) as nat),
        ]
    }
}

/// The fingerprint of a set of query dimensions: the lowercase hex SHA-256 of the fields, sorted
/// by name and length-prefixed.
pub open spec fn fingerprint_of(fields: Seq<FieldText>) -> Seq<char> {
    hex_lower(sha256_of(frame_fields(stable_sorted(fields))))
}

fn hex_char(n: u8) -> (c: char)
    requires
        n < 16,
    ensures
        c == hex_digit(n as nat),
{
    if n < 10 {
        (48u8 + n) as char
    } else {
        (87u8 + n) as char
    }
}

pub(crate) fn hex_encode(bytes: &[u8]) -> (r: String)
    ensures
        r@ == hex_lower(bytes@),
{
    let mut out: Vec<char> = Vec::new();
    let mut i: usize = 0;
    while i < bytes.len()
        invariant
            0 <= i <= bytes@.len(),
            out@ == hex_lower(bytes@.take(i as int)),
        decreases bytes.len() - i,
    {
        let b = bytes[i];
        out.push(hex_char(b / 16));
        out.push(hex_char(b % 16));
        proof {
            assert(bytes@.take(i + 1).drop_last() =~= bytes@.take(i as int));
        }
        i += 1;
    }
    assert(bytes@.take(bytes@.len() as int) =~= bytes@);
    string_from_chars(&out)
}

fn append_bytes(out: &mut Vec<u8>, b: &[u8])
    ensures
        final(out)@ == old(out)@ + b@,
{
    let ghost start = out@;
    let mut i: usize = 0;
    while i < b.len()
        invariant
            0 <= i <= b@.len(),
            out@ == start + b@.take(i as int),
        decreases b.len() - i,
    {
        out.push(b[i]);
        proof {
            assert(b@.take(i + 1) =~= b@.take(i as int).push(b@[i as int]));
        }
        i += 1;
    }
    assert(b@.take(b@.len() as int) =~= b@);
}

fn append_be8(out: &mut Vec<u8>, n: u64)
    ensures
        final(out)@ == old(out)@ + be8(n as nat),
{
    out.push((n / 0x100000000000000 % 256) as u8);
    out.push((n / 0x1000000000000 % 256) as u8);
    out.push((n / 0x10000000000 % 256) as u8);
    out.push((n / 0x100000000 % 256) as u8);
    out.push((n / 0x1000000 % 256) as u8);
    out.push((n / 0x10000 % 256) as u8);
    out.push((n / 0x100 % 256) as u8);
    out.push((n % 256) as u8);
}

proof fn lemma_insertion_step(s: Seq<FieldText>, name: Seq<char>, j: int)
    requires
        0 < j <= s.len(),
        chars_before(name, s[j - 1].0),
    ensures
        insertion_point(s.take(j), name) == insertion_point(s.take(j - 1), name),
{
    assert(s.take(j).drop_last() =~= s.take(j - 1));
}

/// **Fingerprint every effective query dimension** that defines one ordered result set: the
/// fields are sorted by name (stably), each name and value is prefixed with its byte length, and
/// the SHA-256 of the whole is returned as lowercase hex. A cursor is refused when any dimension
/// changes, rather than silently resuming a different collection.
pub fn query_fingerprint<'a>(fields: Vec<(&'a str, String)>) -> (r: String)
    ensures
        r@ == fingerprint_of(fields_text(fields@)),
{
    let ghost src = fields_text(fields@);
    let mut sorted: Vec<(&'a str, String)> = Vec::new();
    let mut i: usize = 0;
    while i < fields.len()
        invariant
            0 <= i <= fields@.len(),
            src == fields_text(fields@),
            fields_text(sorted@) == stable_sorted(src.take(i as int)),
        decreases fields.len() - i,
    {
        let name: &'a str = fields[i].0;
        let value: String = fields[i].1.clone();
        let name_chars = chars_of(name);
        let ghost sv = fields_text(sorted@);
        let mut j: usize = sorted.len();
        assert(sv.take(j as int) =~= sv);
        while j > 0 && text_before(&name_chars, &chars_of(sorted[j - 1].0))
            invariant
                0 <= j <= sorted@.len(),
                sv == fields_text(sorted@),
                name_chars@ == name@,
                insertion_point(sv, name@) == insertion_point(sv.take(j as int), name@),
            decreases j,
        {
            proof {
                lemma_insertion_step(sv, name@, j as int);
            }
            j -= 1;
        }
        proof {
            if j > 0 {
                assert(sv.take(j as int).last() == sv[j - 1]);
            }
            assert(sv.take(j as int).len() == j);
        }
        sorted.insert(j, (name, value));
        proof {
            assert(src.take(i + 1).drop_last() =~= src.take(i as int));
            assert(src.take(i + 1).last() == (name@, value@));
            assert(fields_text(sorted@) =~= sv.take(j as int) + seq![(name@, value@)] + sv.skip(
                j as int,
            ));
        }
        i += 1;
    }
    assert(src.take(fields@.len() as int) =~= src);
    let ghost ordered = fields_text(sorted@);
    let mut msg: Vec<u8> = Vec::new();
    let mut k: usize = 0;
    while k < sorted.len()
        invariant
            0 <= k <= sorted@.len(),
            ordered == fields_text(sorted@),
            msg@ == frame_fields(ordered.take(k as int)),
        decreases sorted.len() - k,
    {
        let name: &str = sorted[k].0;
        let value: &str = sorted[k].1.as_str();
        let nb = name.as_bytes();
        let vb = value.as_bytes();
        append_be8(&mut msg, nb.len() as u64);
        append_bytes(&mut msg, nb);
        append_be8(&mut msg, vb.len() as u64);
        append_bytes(&mut msg, vb);
        proof {
            assert(ordered.take(k + 1).drop_last() =~= ordered.take(k as int));
            assert(ordered.take(k + 1).last() == ordered[k as int]);
        }
        k += 1;
    }
    assert(ordered.take(sorted@.len() as int) =~= ordered);
    let digest = sha256_digest(msg.as_slice());
    hex_encode(&digest)
}

// =================================================================================================
// Cursor position and envelope
// =================================================================================================

/// A row's place in a keyset-paged ordering: its sort key, then its id as tie-breaker.
#[derive(Debug, Clone, PartialEq, Eq, PartialOrd, Ord)]
pub struct CursorPosition {
    pub key: String,
    pub id: String,
}

impl CursorPosition {
    /// A position from its sort key and id.
    pub fn new(key: &str, id: &str) -> (r: CursorPosition)
        ensures
            r.key@ == key@,
            r.id@ == id@,
    {
        CursorPosition { key: owned(key), id: owned(id) }
    }
}

/// Whether position `a` sorts strictly before `b`: by key, then by id (the order of the derived
/// `Ord` on the `(key, id)` pair).
pub open spec fn position_before(a: CursorPosition, b: CursorPosition) -> bool {
    chars_before(a.key@, b.key@) || (a.key@ == b.key@ && chars_before(a.id@, b.id@))
}

/// Whether position `a` sorts strictly before `b`.
pub fn position_is_before(a: &CursorPosition, b: &CursorPosition) -> (r: bool)
    ensures
        r == position_before(*a, *b),
{
    let ak = chars_of(a.key.as_str());
    let bk = chars_of(b.key.as_str());
    if text_before(&ak, &bk) {
        return true;
    }
    if text_before(&bk, &ak) {
        proof {
            lemma_before_asymmetric(bk@, ak@);
        }
        return false;
    }
    proof {
        lemma_before_total(ak@, bk@);
    }
    let ai = chars_of(a.id.as_str());
    let bi = chars_of(b.id.as_str());
    text_before(&ai, &bi)
}

/// `chars_before` is asymmetric.
pub proof fn lemma_before_asymmetric(a: Seq<char>, b: Seq<char>)
    requires
        chars_before(a, b),
    ensures
        !chars_before(b, a),
    decreases a.len(),
{
    if a.len() > 0 && b.len() > 0 && a[0] == b[0] {
        lemma_before_asymmetric(a.drop_first(), b.drop_first());
    }
}

/// `chars_before` is transitive.
pub proof fn lemma_before_transitive(a: Seq<char>, b: Seq<char>, c: Seq<char>)
    requires
        chars_before(a, b),
        chars_before(b, c),
    ensures
        chars_before(a, c),
    decreases a.len(),
{
    if a.len() > 0 && b.len() > 0 && c.len() > 0 {
        if a[0] == b[0] && b[0] == c[0] {
            lemma_before_transitive(a.drop_first(), b.drop_first(), c.drop_first());
        } else {
            vstd::utf8::char_u32_cast(a[0], a[0] as u32);
            vstd::utf8::char_u32_cast(b[0], b[0] as u32);
            vstd::utf8::char_u32_cast(c[0], c[0] as u32);
        }
    }
}

/// `chars_before` is irreflexive.
pub proof fn lemma_before_irreflexive(a: Seq<char>)
    ensures
        !chars_before(a, a),
    decreases a.len(),
{
    if a.len() > 0 {
        lemma_before_irreflexive(a.drop_first());
    }
}

/// `chars_before` is total: of two different texts one sorts before the other.
pub proof fn lemma_before_total(a: Seq<char>, b: Seq<char>)
    requires
        !chars_before(a, b),
        !chars_before(b, a),
    ensures
        a == b,
    decreases a.len(),
{
    if a.len() > 0 && b.len() > 0 {
        if a[0] == b[0] {
            lemma_before_total(a.drop_first(), b.drop_first());
            assert(a =~= seq![a[0]] + a.drop_first());
            assert(b =~= seq![b[0]] + b.drop_first());
        } else {
            vstd::utf8::char_u32_cast(a[0], a[0] as u32);
            vstd::utf8::char_u32_cast(b[0], b[0] as u32);
        }
    } else {
        assert(a.len() == 0 && b.len() == 0);
        assert(a =~= b);
    }
}

/// The JSON escape of one character, as `serde_json` writes it: quote, backslash and the short
/// control escapes, other control characters as `\u00XX` (lowercase hex), everything else as is.
pub open spec fn json_escape_char(c: char) -> Seq<char> {
    if c == '"' {
        seq!['\\', '"']
    } else if c == '\\' {
        seq!['\\', '\\']
    } else if c == '\x08' {
        seq!['\\', 'b']
    } else if c == '\t' {
        seq!['\\', 't']
    } else if c == '\n' {
        seq!['\\', 'n']
    } else if c == '\x0C' {
        seq!['\\', 'f']
    } else if c == '\r' {
        seq!['\\', 'r']
    } else if (c as u32) < 0x20 {
        seq!['\\', 'u', '0', '0', hex_digit((c as u32 / 16) as nat), hex_digit((c as u32 % 16) as nat)]
    } else {
        seq![c]
    }
}

/// The JSON escape of a text.
pub open spec fn json_escape(s: Seq<char>) -> Seq<char>
    decreases s.len(),
{
    if s.len() == 0 {
        Seq::empty()
    } else {
        json_escape(s.drop_last()) + json_escape_char(s.last())
    }
}

/// A JSON string literal holding `s`.
pub open spec fn json_string(s: Seq<char>) -> Seq<char> {
    seq!['"'] + json_escape(s) + seq!['"']
}

/// The compact JSON text of a cursor envelope, fields in declaration order.
#[verifier::opaque]
pub open spec fn envelope_text(
    version: u8,
    collection: Seq<char>,
    fingerprint: Seq<char>,
    key: Seq<char>,
    id: Seq<char>,
    integrity: Seq<char>,
) -> Seq<char> {
    "{\"version\":"@ + dec_nat(version as nat) + ",\"collection\":"@ + json_string(collection)
        + ",\"fingerprint\":"@ + json_string(fingerprint) + ",\"position\":{\"key\":"@
        + json_string(key) + ",\"id\":"@ + json_string(id) + "},\"integrity\":"@ + json_string(
        integrity,
    ) + "}"@
}

/// The unkeyed integrity digest of an envelope: the query fingerprint of its version, collection,
/// fingerprint and position. It detects corruption only; every resumed row is re-authorized and
/// re-filtered by its collection.
pub open spec fn integrity_of(
    version: u8,
    collection: Seq<char>,
    fingerprint: Seq<char>,
    key: Seq<char>,
    id: Seq<char>,
) -> Seq<char> {
    fingerprint_of(
        seq![
            ("version"@, dec_nat(version as nat)),
            ("collection"@, collection),
            ("fingerprint"@, fingerprint),
            ("key"@, key),
            ("id"@, id),
        ],
    )
}

/// The decoded content of a cursor: what the envelope's JSON holds.
#[derive(Debug, Clone)]
pub struct CursorEnvelope {
    pub version: u8,
    pub collection: String,
    pub fingerprint: String,
    pub position: CursorPosition,
    pub integrity: String,
}

/// The JSON text of an envelope.
pub open spec fn envelope_json(e: CursorEnvelope) -> Seq<char> {
    envelope_text(
        e.version,
        e.collection@,
        e.fingerprint@,
        e.position.key@,
        e.position.id@,
        e.integrity@,
    )
}

/// Whether an envelope resumes the given collection and query: current version, same collection
/// and fingerprint, and an intact integrity digest.
pub open spec fn envelope_accepts(e: CursorEnvelope, collection: Seq<char>, fingerprint: Seq<char>) -> bool {
    &&& e.version == CURSOR_VERSION
    &&& e.collection@ == collection
    &&& e.fingerprint@ == fingerprint
    &&& e.integrity@ == integrity_of(
        e.version,
        e.collection@,
        e.fingerprint@,
        e.position.key@,
        e.position.id@,
    )
}

/// The cursor text issued for a position of a collection and query.
#[verifier::opaque]
pub open spec fn cursor_text(collection: Seq<char>, fingerprint: Seq<char>, key: Seq<char>, id: Seq<char>) -> Seq<char> {
    b64_url_encoded(
        utf8(
            envelope_text(
                CURSOR_VERSION,
                collection,
                fingerprint,
                key,
                id,
                integrity_of(CURSOR_VERSION, collection, fingerprint, key, id),
            ),
        ),
    )
}

/// The message every refused cursor is answered with.
pub open spec fn invalid_cursor_message() -> Seq<char> {
    "invalid or mismatched collection cursor; restart pagination from the first page"@
}

/// Whether `e` is the refusal of a cursor.
pub open spec fn is_invalid_cursor(e: ApiError) -> bool {
    e.kind == ApiErrorKind::Unprocessable && e.message@ == invalid_cursor_message() && e.code is None
}

/// The refusal of a cursor that is malformed, corrupted, or issued for another collection or query.
pub fn invalid_cursor() -> (r: ApiError)
    ensures
        is_invalid_cursor(r),
{
    ApiError::new(
        ApiErrorKind::Unprocessable,
        owned("invalid or mismatched collection cursor; restart pagination from the first page"),
    )
}

fn push_json_escaped(out: &mut String, s: &str)
    ensures
        final(out)@ == old(out)@ + json_escape(s@),
{
    let v = chars_of(s);
    let ghost start = out@;
    let mut i: usize = 0;
    while i < v.len()
        invariant
            0 <= i <= v@.len(),
            v@ == s@,
            out@ == start + json_escape(v@.take(i as int)),
        decreases v.len() - i,
    {
        let c = v[i];
        let ghost before = out@;
        if c == '"' {
            push_str(out, "\\\"");
            proof { reveal_strlit("\\\""); }
        } else if c == '\\' {
            push_str(out, "\\\\");
            proof { reveal_strlit("\\\\"); }
        } else if c == '\x08' {
            push_str(out, "\\b");
            proof { reveal_strlit("\\b"); }
        } else if c == '\t' {
            push_str(out, "\\t");
            proof { reveal_strlit("\\t"); }
        } else if c == '\n' {
            push_str(out, "\\n");
            proof { reveal_strlit("\\n"); }
        } else if c == '\x0C' {
            push_str(out, "\\f");
            proof { reveal_strlit("\\f"); }
        } else if c == '\r' {
            push_str(out, "\\r");
            proof { reveal_strlit("\\r"); }
        } else if (c as u32) < 0x20 {
            push_str(out, "\\u00");
            proof { reveal_strlit("\\u00"); }
            let u = c as u32;
            let hi = hex_char((u / 16) as u8);
            let lo = hex_char((u % 16) as u8);
            let mut pair: Vec<char> = Vec::new();
            pair.push(hi);
            pair.push(lo);
            let tail = string_from_chars(&pair);
            push_str(out, tail.as_str());
        } else {
            let mut one: Vec<char> = Vec::new();
            one.push(c);
            let tail = string_from_chars(&one);
            push_str(out, tail.as_str());
        }
        proof {
            assert(out@ =~= before + json_escape_char(c));
            assert(v@.take(i + 1).drop_last() =~= v@.take(i as int));
        }
        i += 1;
    }
    assert(v@.take(v@.len() as int) =~= v@);
}

fn push_json_string(out: &mut String, s: &str)
    ensures
        final(out)@ == old(out)@ + json_string(s@),
{
    let ghost start = out@;
    push_str(out, "\"");
    push_json_escaped(out, s);
    push_str(out, "\"");
    proof {
        reveal_strlit("\"");
        assert(out@ =~= start + json_string(s@));
    }
}

/// The JSON text of an envelope, compact, as `serde_json::to_vec` writes the envelope.
pub fn envelope_to_json(e: &CursorEnvelope) -> (r: String)
    ensures
        r@ == envelope_json(*e),
{
    let mut out = owned("{\"version\":");
    push_str(&mut out, u64_to_string(e.version as u64).as_str());
    push_str(&mut out, ",\"collection\":");
    push_json_string(&mut out, e.collection.as_str());
    push_str(&mut out, ",\"fingerprint\":");
    push_json_string(&mut out, e.fingerprint.as_str());
    push_str(&mut out, ",\"position\":{\"key\":");
    push_json_string(&mut out, e.position.key.as_str());
    push_str(&mut out, ",\"id\":");
    push_json_string(&mut out, e.position.id.as_str());
    push_str(&mut out, "},\"integrity\":");
    push_json_string(&mut out, e.integrity.as_str());
    push_str(&mut out, "}");
    proof {
        reveal(envelope_text);
    }
    out
}

/// The integrity digest of an envelope's fields.
pub fn cursor_integrity(version: u8, collection: &str, fingerprint: &str, position: &CursorPosition) -> (r: String)
    ensures
        r@ == integrity_of(version, collection@, fingerprint@, position.key@, position.id@),
{
    let mut fields: Vec<(&str, String)> = Vec::new();
    fields.push(("version", u64_to_string(version as u64)));
    fields.push(("collection", owned(collection)));
    fields.push(("fingerprint", owned(fingerprint)));
    fields.push(("key", position.key.clone()));
    fields.push(("id", position.id.clone()));
    let r = query_fingerprint(fields);
    proof {
        assert(fields_text(fields@) =~= seq![
            ("version"@, dec_nat(version as nat)),
            ("collection"@, collection@),
            ("fingerprint"@, fingerprint@),
            ("key"@, position.key@),
            ("id"@, position.id@),
        ]);
    }
    r
}

/// **Encode a cursor** for a position of a collection and query: the envelope's JSON, base64url
/// without padding. The text decodes back to exactly the bytes of an envelope that resumes that
/// collection and query at that position.
pub fn encode_cursor(collection: &str, fingerprint: &str, position: &CursorPosition) -> (r: String)
    ensures
        r@ == cursor_text(collection@, fingerprint@, position.key@, position.id@),
        b64_url_decoded(r@) == Some(
            utf8(
                envelope_text(
                    CURSOR_VERSION,
                    collection@,
                    fingerprint@,
                    position.key@,
                    position.id@,
                    integrity_of(CURSOR_VERSION, collection@, fingerprint@, position.key@, position.id@),
                ),
            ),
        ),
{
    let envelope = CursorEnvelope {
        version: CURSOR_VERSION,
        collection: owned(collection),
        fingerprint: owned(fingerprint),
        position: CursorPosition { key: position.key.clone(), id: position.id.clone() },
        integrity: cursor_integrity(CURSOR_VERSION, collection, fingerprint, position),
    };
    let json = envelope_to_json(&envelope);
    let r = b64_url_encode(json.as_str().as_bytes());
    proof {
        reveal(cursor_text);
    }
    r
}

/// What a refused or accepted cursor answers, given the envelope the parse function returned.
pub open spec fn envelope_outcome(
    parsed: Option<CursorEnvelope>,
    collection: Seq<char>,
    fingerprint: Seq<char>,
    r: Result<CursorPosition, ApiError>,
) -> bool {
    match parsed {
        Some(e) => if envelope_accepts(e, collection, fingerprint) {
            r == Ok::<CursorPosition, ApiError>(e.position)
        } else {
            r matches Err(err) && is_invalid_cursor(err)
        },
        None => r matches Err(err) && is_invalid_cursor(err),
    }
}

/// The envelope bytes a cursor text carries: none when the text is empty, longer than the cap, or
/// not base64url.
pub open spec fn cursor_bytes(encoded: Seq<char>) -> Option<Seq<u8>> {
    if encoded.len() == 0 || utf8(encoded).len() > MAX_CURSOR_BYTES {
        None
    } else {
        b64_url_decoded(encoded)
    }
}

/// What decoding `encoded` for a collection and query answers, where `parse` reads JSON bytes into
/// an envelope: an empty or over-long text, a text that is not base64url, bytes that do not parse,
/// and an envelope that does not resume this collection and query are all refused alike.
pub open spec fn cursor_decoding<P: Fn(&[u8]) -> Option<CursorEnvelope>>(
    parse: P,
    encoded: Seq<char>,
    collection: Seq<char>,
    fingerprint: Seq<char>,
    r: Result<CursorPosition, ApiError>,
) -> bool {
    match cursor_bytes(encoded) {
        None => r matches Err(err) && is_invalid_cursor(err),
        Some(bytes) => exists|input: &[u8], parsed: Option<CursorEnvelope>|
            input@ == bytes && #[trigger] parse.ensures((input,), parsed) && envelope_outcome(
                parsed,
                collection,
                fingerprint,
                r,
            ),
    }
}

/// The envelope bytes of a cursor text (length cap, then base64url).
pub fn cursor_envelope_bytes(encoded: &str) -> (r: Option<Vec<u8>>)
    ensures
        match r {
            Some(b) => cursor_bytes(encoded@) == Some(b@),
            None => cursor_bytes(encoded@) is None,
        },
{
    if encoded.is_empty() || encoded.as_bytes().len() > MAX_CURSOR_BYTES {
        return None;
    }
    b64_url_decode(encoded)
}

/// **Decode a cursor** for a collection and query. `parse` turns the envelope's JSON bytes into an
/// envelope (or `None`); everything else — length, base64url, version, collection, fingerprint,
/// integrity — is checked here, and every failure is the same refusal.
pub fn decode_cursor<P: Fn(&[u8]) -> Option<CursorEnvelope>>(
    encoded: &str,
    expected_collection: &str,
    expected_fingerprint: &str,
    parse: P,
) -> (r: Result<CursorPosition, ApiError>)
    requires
        forall|input: &[u8]| #[trigger] parse.requires((input,)),
    ensures
        cursor_decoding(parse, encoded@, expected_collection@, expected_fingerprint@, r),
{
    let bytes = match cursor_envelope_bytes(encoded) {
        Some(b) => b,
        None => {
            return Err(invalid_cursor());
        },
    };
    let input = bytes.as_slice();
    let parsed = parse(input);
    let ghost parsed_value = parsed;
    let r = match parsed {
        Some(envelope) => check_envelope(envelope, expected_collection, expected_fingerprint),
        None => Err(invalid_cursor()),
    };
    proof {
        assert(parse.ensures((input,), parsed_value));
        assert(envelope_outcome(parsed_value, expected_collection@, expected_fingerprint@, r));
    }
    r
}

/// Check a parsed envelope against the collection and query it is meant to resume.
pub fn check_envelope(envelope: CursorEnvelope, expected_collection: &str, expected_fingerprint: &str) -> (r: Result<CursorPosition, ApiError>)
    ensures
        envelope_outcome(Some(envelope), expected_collection@, expected_fingerprint@, r),
{
    let integrity = cursor_integrity(
        envelope.version,
        envelope.collection.as_str(),
        envelope.fingerprint.as_str(),
        &envelope.position,
    );
    if envelope.version != CURSOR_VERSION {
        return Err(invalid_cursor());
    }
    if !crate::text::str_eq(envelope.collection.as_str(), expected_collection) {
        return Err(invalid_cursor());
    }
    if !crate::text::str_eq(envelope.fingerprint.as_str(), expected_fingerprint) {
        return Err(invalid_cursor());
    }
    if !crate::text::str_eq(envelope.integrity.as_str(), integrity.as_str()) {
        return Err(invalid_cursor());
    }
    Ok(envelope.position)
}

/// **A cursor binds its query:** the envelope written for a collection, query and position is
/// accepted for exactly that collection and that query.
pub proof fn lemma_envelope_binds_query(
    e: CursorEnvelope,
    collection: Seq<char>,
    fingerprint: Seq<char>,
)
    requires
        e.version == CURSOR_VERSION,
        e.integrity@ == integrity_of(
            CURSOR_VERSION,
            e.collection@,
            e.fingerprint@,
            e.position.key@,
            e.position.id@,
        ),
    ensures
        envelope_accepts(e, collection, fingerprint) <==> (collection == e.collection@
            && fingerprint == e.fingerprint@),
{
}

/// **A cursor resumes where it was issued:** when the text decodes to the JSON of an envelope that
/// resumes this collection and query, and the parse function reads that JSON back as that envelope,
/// decoding answers exactly the envelope's position — provided the text is within the length cap.
pub proof fn lemma_cursor_round_trip<P: Fn(&[u8]) -> Option<CursorEnvelope>>(
    parse: P,
    e: CursorEnvelope,
    encoded: Seq<char>,
    collection: Seq<char>,
    fingerprint: Seq<char>,
    r: Result<CursorPosition, ApiError>,
)
    requires
        b64_url_decoded(encoded) == Some(utf8(envelope_json(e))),
        forall|input: &[u8], parsed: Option<CursorEnvelope>|
            input@ == utf8(envelope_json(e)) && #[trigger] parse.ensures((input,), parsed)
                ==> parsed == Some(e),
        envelope_accepts(e, collection, fingerprint),
        0 < encoded.len(),
        utf8(encoded).len() <= MAX_CURSOR_BYTES,
        cursor_decoding(parse, encoded, collection, fingerprint, r),
    ensures
        r == Ok::<CursorPosition, ApiError>(e.position),
{
}

/// **An issued cursor resumes only its own query.** Take the text [`encode_cursor`] issues for a
/// collection, query and position (whose bytes, as it states, are the envelope's JSON), and any
/// parse function that reads that JSON back as the envelope it was written from. Decoding the text
/// (within the length cap) for that collection and query answers exactly the position; decoding
/// it for any other collection or query is refused.
pub proof fn lemma_issued_cursor_resumes_only_its_query<P: Fn(&[u8]) -> Option<CursorEnvelope>>(
    parse: P,
    collection: Seq<char>,
    fingerprint: Seq<char>,
    position: CursorPosition,
    asked_collection: Seq<char>,
    asked_fingerprint: Seq<char>,
    r: Result<CursorPosition, ApiError>,
)
    requires
        b64_url_decoded(cursor_text(collection, fingerprint, position.key@, position.id@)) == Some(
            utf8(
                envelope_text(
                    CURSOR_VERSION,
                    collection,
                    fingerprint,
                    position.key@,
                    position.id@,
                    integrity_of(CURSOR_VERSION, collection, fingerprint, position.key@, position.id@),
                ),
            ),
        ),
        forall|input: &[u8], parsed: Option<CursorEnvelope>|
            input@ == utf8(
                envelope_text(
                    CURSOR_VERSION,
                    collection,
                    fingerprint,
                    position.key@,
                    position.id@,
                    integrity_of(CURSOR_VERSION, collection, fingerprint, position.key@, position.id@),
                ),
            ) && #[trigger] parse.ensures((input,), parsed) ==> (parsed matches Some(e) && e.version
                == CURSOR_VERSION && e.collection@ == collection && e.fingerprint@ == fingerprint
                && e.position == position && e.integrity@ == integrity_of(
                CURSOR_VERSION,
                collection,
                fingerprint,
                position.key@,
                position.id@,
            )),
        0 < cursor_text(collection, fingerprint, position.key@, position.id@).len(),
        utf8(cursor_text(collection, fingerprint, position.key@, position.id@)).len() <= MAX_CURSOR_BYTES,
        cursor_decoding(
            parse,
            cursor_text(collection, fingerprint, position.key@, position.id@),
            asked_collection,
            asked_fingerprint,
            r,
        ),
    ensures
        asked_collection == collection && asked_fingerprint == fingerprint ==> r == Ok::<
            CursorPosition,
            ApiError,
        >(position),
        asked_collection != collection || asked_fingerprint != fingerprint ==> (r matches Err(err)
            && is_invalid_cursor(err)),
{
    let bytes = utf8(
        envelope_text(
            CURSOR_VERSION,
            collection,
            fingerprint,
            position.key@,
            position.id@,
            integrity_of(CURSOR_VERSION, collection, fingerprint, position.key@, position.id@),
        ),
    );
    let text = cursor_text(collection, fingerprint, position.key@, position.id@);
    assert(cursor_bytes(text) == Some(bytes));
    let (input, parsed) = choose|input: &[u8], parsed: Option<CursorEnvelope>|
        input@ == bytes && #[trigger] parse.ensures((input,), parsed) && envelope_outcome(
            parsed,
            asked_collection,
            asked_fingerprint,
            r,
        );
    assert(parsed is Some);
}

// =================================================================================================
// The page request
// =================================================================================================

/// The `{:?}` text of a string.
pub uninterp spec fn debug_quoted(s: Seq<char>) -> Seq<char>;

/// Whether every character of `s` is printable ASCII other than a quote or a backslash.
pub open spec fn plain_ascii(s: Seq<char>) -> bool {
    forall|i: int|
        0 <= i < s.len() ==> 0x20 <= (#[trigger] s[i] as u32) <= 0x7e && s[i] != '"' && s[i] != '\\'
}

/// `format!("{:?}", s)` of std (`Debug` of `str`). The contract names the text and states what
/// std's documentation of `char::escape_debug` gives for printable ASCII other than a quote or a
/// backslash: such text is only wrapped in quotes.
#[verifier::external_body]
pub(crate) fn debug_str(s: &str) -> (r: String)
    ensures
        r@ == debug_quoted(s@),
        plain_ascii(s@) ==> r@ == seq!['"'] + s@ + seq!['"'],
{
    format!("{:?}", s)
}

/// The query of a `/page` route.
#[derive(Debug, Clone)]
pub struct CollectionPageQuery {
    /// Case-insensitive free-text filter interpreted by the owning collection.
    pub q: Option<String>,
    /// Zero-based offset within the caller-visible, filtered collection.
    pub offset: usize,
    /// Opaque keyset cursor returned by a previous response; excludes a non-zero offset.
    pub cursor: Option<String>,
    /// Requested page size; values above the server ceiling are capped.
    pub limit: Option<usize>,
    /// Collection-specific sort key.
    pub sort: Option<String>,
    /// `asc` (default) or `desc`.
    pub order: Option<String>,
}

impl Default for CollectionPageQuery {
    fn default() -> (r: Self)
        ensures
            r.q is None,
            r.offset == 0,
            r.cursor is None,
            r.limit is None,
            r.sort is None,
            r.order is None,
    {
        CollectionPageQuery { q: None, offset: 0, cursor: None, limit: None, sort: None, order: None }
    }
}

/// The effective page size for a requested one: the default when none is named, otherwise the
/// request clamped to `1..=MAX_PAGE_LIMIT`.
pub open spec fn effective_limit(requested: Option<usize>) -> usize {
    match requested {
        None => DEFAULT_PAGE_LIMIT,
        Some(n) => if n < 1 {
            1
        } else if n > MAX_PAGE_LIMIT {
            MAX_PAGE_LIMIT
        } else {
            n
        },
    }
}

/// **A page is as large as asked, within bounds**: a requested size from 1 to 200 is honoured
/// exactly; a larger one is capped at 200, a zero one raised to 1, and no request gives 50.
pub proof fn lemma_page_size_is_the_request_within_bounds(n: usize)
    ensures
        1 <= n <= 200 ==> effective_limit(Some(n)) == n,
        n > 200 ==> effective_limit(Some(n)) == 200,
        n == 0 ==> effective_limit(Some(n)) == 1,
        effective_limit(None) == 50,
        1 <= effective_limit(Some(n)) <= 200,
{
}

/// The message of an unknown order.
pub open spec fn unknown_order_message(order: Seq<char>) -> Seq<char> {
    "unknown order "@ + debug_quoted(order) + ": expected \"asc\" or \"desc\""@
}

/// The message of a cursor sent together with a non-zero offset.
pub open spec fn cursor_with_offset_message() -> Seq<char> {
    "cursor and a non-zero offset are mutually exclusive"@
}

/// Accent- and case-insensitive search text: canonical decomposition, combining marks removed,
/// then Unicode lowercase.
pub open spec fn folded(s: Seq<char>) -> Seq<char>
    decreases s.len(),
{
    if s.len() == 0 {
        Seq::empty()
    } else if combining_mark(s.last()) {
        folded(s.drop_last())
    } else {
        folded(s.drop_last()) + lowercase_of(s.last())
    }
}

/// The search key of a text.
pub open spec fn search_key(s: Seq<char>) -> Seq<char> {
    folded(nfd_of(s))
}

/// Fold a search text so that `João` and `joao` agree: canonical decomposition, removal of
/// combining marks, then Unicode lowercase.
pub fn fold_search(value: &str) -> (r: String)
    ensures
        r@ == search_key(value@),
{
    let d = nfd_chars(value);
    let mut out: Vec<char> = Vec::new();
    let mut i: usize = 0;
    while i < d.len()
        invariant
            0 <= i <= d@.len(),
            d@ == nfd_of(value@),
            out@ == folded(d@.take(i as int)),
        decreases d.len() - i,
    {
        let c = d[i];
        proof {
            assert(d@.take(i + 1).drop_last() =~= d@.take(i as int));
        }
        if !is_combining_mark(c) {
            let lower = char_lowercase(c);
            let ghost before = out@;
            let mut k: usize = 0;
            while k < lower.len()
                invariant
                    0 <= k <= lower@.len(),
                    out@ == before + lower@.take(k as int),
                decreases lower.len() - k,
            {
                out.push(lower[k]);
                proof {
                    assert(lower@.take(k + 1) =~= lower@.take(k as int).push(lower@[k as int]));
                }
                k += 1;
            }
            assert(lower@.take(lower@.len() as int) =~= lower@);
        }
        i += 1;
    }
    assert(d@.take(d@.len() as int) =~= d@);
    string_from_chars(&out)
}

impl CollectionPageQuery {
    /// The effective page size: the default when none is named, never below one, never above the
    /// server ceiling.
    pub fn limit(&self) -> (r: usize)
        ensures
            r == effective_limit(self.limit),
            self.limit matches Some(n) ==> (1 <= n <= 200 ==> r == n),
            self.limit matches Some(n) ==> (n > 200 ==> r == 200),
            self.limit == Some(0usize) ==> r == 1,
            self.limit is None ==> r == 50,
    {
        match self.limit {
            None => DEFAULT_PAGE_LIMIT,
            Some(n) => if n < 1 {
                1
            } else if n > MAX_PAGE_LIMIT {
                MAX_PAGE_LIMIT
            } else {
                n
            },
        }
    }

    /// Whether the order is descending: `asc` (or none) is ascending, `desc` descending; any other
    /// order is refused.
    pub fn descending(&self) -> (r: Result<bool, ApiError>)
        ensures
            match self.order {
                None => r == Ok::<bool, ApiError>(false),
                Some(o) => if o@ == "asc"@ {
                    r == Ok::<bool, ApiError>(false)
                } else if o@ == "desc"@ {
                    r == Ok::<bool, ApiError>(true)
                } else {
                    r matches Err(e) && e.kind == ApiErrorKind::Unprocessable && e.message@
                        == unknown_order_message(o@) && e.code is None
                },
            },
    {
        match &self.order {
            None => Ok(false),
            Some(o) => {
                if crate::text::str_eq(o.as_str(), "asc") {
                    Ok(false)
                } else if crate::text::str_eq(o.as_str(), "desc") {
                    Ok(true)
                } else {
                    let mut m = owned("unknown order ");
                    push_str(&mut m, debug_str(o.as_str()).as_str());
                    push_str(&mut m, ": expected \"asc\" or \"desc\"");
                    Err(ApiError::new(ApiErrorKind::Unprocessable, m))
                }
            },
        }
    }

    /// The folded search text, when the query carries a non-blank one.
    pub fn normalized_search(&self) -> (r: Option<String>)
        ensures
            match self.q {
                None => r is None,
                Some(q) => if trim(q@).len() == 0 {
                    r is None
                } else {
                    r matches Some(s) && s@ == search_key(trim(q@))
                },
            },
    {
        match &self.q {
            None => None,
            Some(q) => {
                let t = trim_chars(q.as_str());
                if t.len() == 0 {
                    None
                } else {
                    let ts = string_from_chars(&t);
                    Some(fold_search(ts.as_str()))
                }
            },
        }
    }

    /// The decoded cursor position, if the query carries a cursor. A cursor together with a
    /// non-zero offset is refused; otherwise the cursor is decoded for the collection and query as
    /// [`decode_cursor`] does.
    pub fn cursor<P: Fn(&[u8]) -> Option<CursorEnvelope>>(
        &self,
        collection: &str,
        fingerprint: &str,
        parse: P,
    ) -> (r: Result<Option<CursorPosition>, ApiError>)
        requires
            forall|input: &[u8]| #[trigger] parse.requires((input,)),
        ensures
            match self.cursor {
                None => r == Ok::<Option<CursorPosition>, ApiError>(None),
                Some(c) => if self.offset != 0 {
                    r matches Err(e) && e.kind == ApiErrorKind::Unprocessable && e.message@
                        == cursor_with_offset_message() && e.code is None
                } else {
                    exists|d: Result<CursorPosition, ApiError>|
                        #[trigger] cursor_decoding(parse, c@, collection@, fingerprint@, d) && r
                            == match d {
                            Ok(p) => Ok::<Option<CursorPosition>, ApiError>(Some(p)),
                            Err(e) => Err(e),
                        }
                },
            },
    {
        match &self.cursor {
            None => Ok(None),
            Some(c) => {
                if self.offset != 0 {
                    return Err(
                        ApiError::new(
                            ApiErrorKind::Unprocessable,
                            owned("cursor and a non-zero offset are mutually exclusive"),
                        ),
                    );
                }
                let d = decode_cursor(c.as_str(), collection, fingerprint, parse);
                let ghost dv = d;
                let r = match d {
                    Ok(p) => Ok(Some(p)),
                    Err(e) => Err(e),
                };
                assert(cursor_decoding(parse, c@, collection@, fingerprint@, dv));
                r
            },
        }
    }
}

// =================================================================================================
// Pages
// =================================================================================================

/// The rows after the first `offset` (none when the offset is past the end).
pub open spec fn after_offset<T>(items: Seq<T>, offset: int) -> Seq<T> {
    if offset < items.len() {
        items.skip(offset)
    } else {
        Seq::empty()
    }
}

/// At most the first `n` rows.
pub open spec fn first_n<T>(items: Seq<T>, n: int) -> Seq<T> {
    if items.len() > n {
        items.take(n)
    } else {
        items
    }
}

/// One bounded page of a collection.
#[derive(Debug)]
pub struct CollectionPage<T> {
    pub items: Vec<T>,
    pub offset: usize,
    pub limit: usize,
    pub has_more: bool,
    pub next_offset: Option<usize>,
    pub next_cursor: Option<String>,
}

/// Whether `ps[k]` is what `position` returned for `items[k]`, for every row.
pub open spec fn positions_of<T, F: Fn(&T) -> CursorPosition>(
    position: F,
    items: Seq<T>,
    ps: Seq<CursorPosition>,
) -> bool {
    &&& ps.len() == items.len()
    &&& forall|k: int| 0 <= k < items.len() ==> #[trigger] position.ensures((&items[k],), ps[k])
}

/// Whether `next` is the cursor issued for position `p` of the collection and query.
pub open spec fn carries_cursor(
    next: Option<String>,
    collection: Seq<char>,
    fingerprint: Seq<char>,
    p: CursorPosition,
) -> bool {
    next matches Some(c) && c@ == cursor_text(collection, fingerprint, p.key@, p.id@)
}

/// Whether `next` is the cursor issued for the position `position` gives `row`.
pub open spec fn cursor_for_row<T, F: Fn(&T) -> CursorPosition>(
    position: F,
    row: T,
    next: Option<String>,
    collection: Seq<char>,
    fingerprint: Seq<char>,
) -> bool {
    exists|p: CursorPosition|
        #[trigger] position.ensures((&row,), p) && carries_cursor(next, collection, fingerprint, p)
}

/// The cursor of the last row of a page, if it has one.
fn last_row_cursor<T, F: Fn(&T) -> CursorPosition>(
    items: &Vec<T>,
    collection: &str,
    fingerprint: &str,
    position: F,
) -> (r: Option<String>)
    requires
        forall|t: &T| #[trigger] position.requires((t,)),
    ensures
        items@.len() == 0 ==> r is None,
        items@.len() > 0 ==> cursor_for_row(position, items@.last(), r, collection@, fingerprint@),
{
    if items.len() == 0 {
        return None;
    }
    let last = &items[items.len() - 1];
    let p = position(last);
    let c = encode_cursor(collection, fingerprint, &p);
    let r = Some(c);
    proof {
        assert(position.ensures((&items@.last(),), p));
        assert(carries_cursor(r, collection@, fingerprint@, p));
    }
    r
}

impl<T> CollectionPage<T> {
    /// The page of an already sorted and filtered collection at `offset`: at most `limit` rows,
    /// whether more follow, and the offset of the next page when they do.
    pub fn from_sorted(items: Vec<T>, offset: usize, limit: usize) -> (r: Self)
        requires
            limit < usize::MAX,
        ensures
            r.items@ == first_n(after_offset(items@, offset as int), limit as int),
            r.offset == offset,
            r.limit == limit,
            r.has_more == (after_offset(items@, offset as int).len() > limit),
            r.next_offset == (if r.has_more {
                Some((offset + limit) as usize)
            } else {
                None::<usize>
            }),
            r.next_cursor is None,
    {
        let mut items = items;
        let mut page: Vec<T> = if offset < items.len() {
            items.split_off(offset)
        } else {
            Vec::new()
        };
        let ghost rest = page@;
        page.truncate(limit + 1);
        let has_more = page.len() > limit;
        if has_more {
            page.pop();
            assert(page@ =~= rest.take(limit as int));
        }
        let next_offset = if has_more {
            Some(offset.saturating_add(page.len()))
        } else {
            None
        };
        CollectionPage { items: page, offset, limit, has_more, next_offset, next_cursor: None }
    }

    /// The page of a collection that its owner has already sorted, filtered and (for a cursor)
    /// cut after the cursor's position. Offset callers keep the next offset; cursor callers get
    /// only the opaque cursor of the last row on the page, since an absolute offset would be
    /// unstable under concurrent inserts and deletes.
    pub fn from_keyset_sorted<F: Fn(&T) -> CursorPosition>(
        items: Vec<T>,
        offset: usize,
        limit: usize,
        cursor_mode: bool,
        collection: &str,
        fingerprint: &str,
        position: F,
    ) -> (r: Self)
        requires
            limit < usize::MAX,
            forall|t: &T| #[trigger] position.requires((t,)),
        ensures
            ({
                let window = if !cursor_mode && offset != 0 {
                    after_offset(items@, offset as int)
                } else {
                    items@
                };
                &&& r.items@ == first_n(window, limit as int)
                &&& r.offset == offset
                &&& r.limit == limit
                &&& r.has_more == (window.len() > limit)
                &&& r.next_offset == (if !cursor_mode && r.has_more {
                    Some((offset + limit) as usize)
                } else {
                    None::<usize>
                })
                &&& if r.has_more && limit > 0 {
                    cursor_for_row(position, window[limit - 1], r.next_cursor, collection@, fingerprint@)
                } else {
                    r.next_cursor is None
                }
            }),
    {
        let mut items = items;
        if !cursor_mode && offset != 0 {
            items = if offset < items.len() {
                items.split_off(offset)
            } else {
                Vec::new()
            };
        }
        let ghost window = items@;
        items.truncate(limit + 1);
        let has_more = items.len() > limit;
        if has_more {
            items.pop();
            assert(items@ =~= window.take(limit as int));
        }
        let next_cursor = if has_more {
            last_row_cursor(&items, collection, fingerprint, position)
        } else {
            None
        };
        proof {
            if has_more && limit > 0 {
                assert(items@.last() == window[limit - 1]);
            }
        }
        let next_offset = if !cursor_mode && has_more {
            Some(offset.saturating_add(items.len()))
        } else {
            None
        };
        CollectionPage { items, offset, limit, has_more, next_offset, next_cursor }
    }

    /// The same page with every row mapped by `f`.
    pub fn map<U, F: Fn(T) -> U>(self, f: F) -> (r: CollectionPage<U>)
        requires
            forall|t: T| #[trigger] f.requires((t,)),
        ensures
            r.items@.len() == self.items@.len(),
            forall|k: int| 0 <= k < r.items@.len() ==> #[trigger] f.ensures((self.items@[k],), r.items@[k]),
            r.offset == self.offset,
            r.limit == self.limit,
            r.has_more == self.has_more,
            r.next_offset == self.next_offset,
            r.next_cursor == self.next_cursor,
    {
        let ghost src = self.items@;
        let mut items: Vec<U> = Vec::new();
        for x in it: self.items.into_iter()
            invariant
                it.seq() == src,
                forall|t: T| #[trigger] f.requires((t,)),
                items@.len() == it.index(),
                forall|k: int| 0 <= k < items@.len() ==> #[trigger] f.ensures((src[k],), items@[k]),
        {
            items.push(f(x));
        }
        CollectionPage {
            items,
            offset: self.offset,
            limit: self.limit,
            has_more: self.has_more,
            next_offset: self.next_offset,
            next_cursor: self.next_cursor,
        }
    }
}

/// Whether a row at position `p` lies strictly after the cursor in the requested order.
pub open spec fn past_cursor(p: CursorPosition, cursor: CursorPosition, descending: bool) -> bool {
    if descending {
        position_before(p, cursor)
    } else {
        position_before(cursor, p)
    }
}

/// The rows that lie strictly after the cursor, in their order, given each row's position.
pub open spec fn keep_past_cursor<T>(
    items: Seq<T>,
    ps: Seq<CursorPosition>,
    cursor: CursorPosition,
    descending: bool,
) -> Seq<T>
    decreases items.len(),
{
    if items.len() == 0 {
        Seq::empty()
    } else {
        let rest = keep_past_cursor(items.drop_last(), ps.drop_last(), cursor, descending);
        if past_cursor(ps[items.len() - 1], cursor, descending) {
            rest.push(items.last())
        } else {
            rest
        }
    }
}

/// **Drop the rows at or before the cursor** in the requested order. Comparing the whole
/// `(key, id)` position is what keeps rows with equal sort keys from being repeated or skipped.
pub fn apply_keyset<T, F: Fn(&T) -> CursorPosition>(
    items: &mut Vec<T>,
    cursor: Option<&CursorPosition>,
    descending: bool,
    position: F,
)
    requires
        forall|t: &T| #[trigger] position.requires((t,)),
    ensures
        match cursor {
            None => final(items)@ == old(items)@,
            Some(c) => exists|ps: Seq<CursorPosition>|
                #[trigger] positions_of(position, old(items)@, ps) && final(items)@
                    == keep_past_cursor(old(items)@, ps, *c, descending),
        },
{
    let c = match cursor {
        None => {
            return;
        },
        Some(c) => c,
    };
    let ghost src = items@;
    let ghost mut ps: Seq<CursorPosition> = Seq::empty();
    let ghost mut j: int = 0;
    let mut i: usize = 0;
    while i < items.len()
        invariant
            0 <= j <= src.len(),
            forall|t: &T| #[trigger] position.requires((t,)),
            positions_of(position, src.take(j), ps),
            keep_past_cursor(src.take(j), ps, *c, descending).len() == i,
            items@ == keep_past_cursor(src.take(j), ps, *c, descending) + src.skip(j),
        decreases items.len() - i,
    {
        let ghost kept = keep_past_cursor(src.take(j), ps, *c, descending);
        assert(items@[i as int] == src[j]);
        let p = position(&items[i]);
        let keep = if descending {
            position_is_before(&p, c)
        } else {
            position_is_before(c, &p)
        };
        proof {
            let nps = ps.push(p);
            assert(src.take(j + 1).drop_last() =~= src.take(j));
            assert(nps.drop_last() =~= ps);
            assert(positions_of(position, src.take(j + 1), nps));
        }
        if keep {
            i += 1;
            proof {
                assert(items@ =~= kept.push(src[j]) + src.skip(j + 1));
            }
        } else {
            items.remove(i);
            proof {
                assert(items@ =~= kept + src.skip(j + 1));
            }
        }
        proof {
            ps = ps.push(p);
            j = j + 1;
        }
    }
    proof {
        assert(src.skip(j).len() == 0);
        assert(j == src.len());
        assert(src.take(j) =~= src);
        assert(items@ =~= keep_past_cursor(src, ps, *c, descending));
        assert(positions_of(position, src, ps));
    }
}

} // verus!
