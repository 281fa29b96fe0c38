//! Where enrolled embeddings live and how they are laid out on disk.
//!
//! An embedding file holds a little-endian `u32` dimension `N`, then `N`
//! little-endian 32-bit words, the IEEE-754 bit patterns of the embedding's
//! components.
use vstd::prelude::*;
use vstd::string::*;

use crate::error::RustfaceError;
use crate::text::{chars_of, decimal, push_decimal, string_of};

verus! {

/// The directory of enrolled embeddings.
pub const FACES_DIR: &'static str = "/etc/rustface/faces";

/// The directory of the model files.
pub const MODELS_DIR: &'static str = "/etc/rustface/models";

/// The largest dimension that a stored embedding may have.
pub const MAX_EMBEDDING_DIM: u32 = 4096;

/// The reason given when an embedding file ends too early.
pub const SHORT_FILE: &'static str = "failed to fill whole buffer";

/// The four little-endian bytes of `v`.
pub open spec fn le_bytes(v: u32) -> Seq<u8> {
    seq![
        (v & 0xff) as u8,
        ((v >> 8u32) & 0xff) as u8,
        ((v >> 16u32) & 0xff) as u8,
        ((v >> 24u32) & 0xff) as u8,
    ]
}

/// The word whose little-endian bytes are `b0 b1 b2 b3`.
pub open spec fn le_word(b0: u8, b1: u8, b2: u8, b3: u8) -> u32 {
    (b0 as u32) | ((b1 as u32) << 8u32) | ((b2 as u32) << 16u32) | ((b3 as u32) << 24u32)
}

/// The little-endian word that starts at byte `i` of `b`.
pub open spec fn word_at(b: Seq<u8>, i: int) -> u32 {
    le_word(b[i], b[i + 1], b[i + 2], b[i + 3])
}

/// The bytes of the words `ws`, each in little-endian order, one after another.
pub open spec fn words_bytes(ws: Seq<u32>) -> Seq<u8> {
    Seq::new(4 * ws.len(), |p: int| le_bytes(ws[p / 4])[p % 4])
}

/// The content of the file that stores the embedding words `ws`.
pub open spec fn embedding_file(ws: Seq<u32>) -> Seq<u8> {
    le_bytes(ws.len() as u32) + words_bytes(ws)
}

/// The dimension that a file announces in its first four bytes.
pub open spec fn announced_dim(b: Seq<u8>) -> u32 {
    word_at(b, 0)
}

/// Whether a file's announced dimension is one that may be stored.
pub open spec fn valid_dim(n: u32) -> bool {
    1 <= n <= MAX_EMBEDDING_DIM
}

/// The `n` words that follow the four-byte header of `b`.
pub open spec fn stored_words(b: Seq<u8>, n: nat) -> Seq<u32> {
    Seq::new(n, |i: int| word_at(b, 4 + 4 * i))
}

/// The embedding words that a file holds, or `None` when the file is too
/// short or announces a dimension that may not be stored.
pub open spec fn stored_embedding(b: Seq<u8>) -> Option<Seq<u32>> {
    if b.len() >= 4 && valid_dim(announced_dim(b)) && b.len() >= 4 + 4 * announced_dim(b) {
        Some(stored_words(b, announced_dim(b) as nat))
    } else {
        None
    }
}

/// Reading back a word from its bytes gives the word.
pub proof fn lemma_le_roundtrip(v: u32)
    ensures
        le_word(le_bytes(v)[0], le_bytes(v)[1], le_bytes(v)[2], le_bytes(v)[3]) == v,
{
    assert(((v & 0xff) as u8 as u32) | ((((v >> 8u32) & 0xff) as u8 as u32) << 8u32) | ((((v
        >> 16u32) & 0xff) as u8 as u32) << 16u32) | ((((v >> 24u32) & 0xff) as u8 as u32)
        << 24u32) == v) by (bit_vector);
}

/// Writing a word read from four bytes gives the bytes back.
pub proof fn lemma_word_bytes_roundtrip(b0: u8, b1: u8, b2: u8, b3: u8)
    ensures
        le_bytes(le_word(b0, b1, b2, b3)) == seq![b0, b1, b2, b3],
{
    let w = le_word(b0, b1, b2, b3);
    assert((((b0 as u32) | ((b1 as u32) << 8u32) | ((b2 as u32) << 16u32) | ((b3 as u32)
        << 24u32)) & 0xff) as u8 == b0) by (bit_vector);
    assert(((((b0 as u32) | ((b1 as u32) << 8u32) | ((b2 as u32) << 16u32) | ((b3 as u32)
        << 24u32)) >> 8u32) & 0xff) as u8 == b1) by (bit_vector);
    assert(((((b0 as u32) | ((b1 as u32) << 8u32) | ((b2 as u32) << 16u32) | ((b3 as u32)
        << 24u32)) >> 16u32) & 0xff) as u8 == b2) by (bit_vector);
    assert(((((b0 as u32) | ((b1 as u32) << 8u32) | ((b2 as u32) << 16u32) | ((b3 as u32)
        << 24u32)) >> 24u32) & 0xff) as u8 == b3) by (bit_vector);
    assert(le_bytes(w) =~= seq![b0, b1, b2, b3]);
}

/// Appends the four little-endian bytes of `v` to `out`.
fn push_le(out: &mut Vec<u8>, v: u32)
    ensures
        final(out)@ == old(out)@ + le_bytes(v),
{
    out.push((v & 0xff) as u8);
    out.push(((v >> 8u32) & 0xff) as u8);
    out.push(((v >> 16u32) & 0xff) as u8);
    out.push(((v >> 24u32) & 0xff) as u8);
    assert(final(out)@ =~= old(out)@ + le_bytes(v));
}

/// The bytes of the file that stores an embedding whose components have the
/// IEEE-754 bit patterns `words`: the dimension (truncated to 32 bits, as a
/// `u32` cast does), then the words, all little-endian.
pub fn encode_embedding(words: &Vec<u32>) -> (out: Vec<u8>)
    requires
        4 + 4 * words@.len() <= usize::MAX,
    ensures
        out@ == embedding_file(words@),
{
    let n: u32 = words.len() as u32;
    let mut out: Vec<u8> = Vec::new();
    push_le(&mut out, n);
    let mut i: usize = 0;
    while i < words.len()
        invariant
            i <= words.len(),
            4 + 4 * words@.len() <= usize::MAX,
            n == words@.len() as u32,
            out@ == le_bytes(n) + words_bytes(words@.take(i as int)),
        decreases words.len() - i,
    {
        let ghost before = out@;
        push_le(&mut out, words[i]);
        proof {
            let prev = words@.take(i as int);
            let next = words@.take(i + 1);
            assert(words_bytes(next) =~= words_bytes(prev) + le_bytes(words@[i as int]));
        }
        i = i + 1;
    }
    assert(words@.take(words.len() as int) == words@);
    out
}

/// The little-endian word at byte `i` of `b`.
fn read_word(b: &Vec<u8>, i: usize) -> (w: u32)
    requires
        i + 4 <= b@.len(),
    ensures
        w == word_at(b@, i as int),
{
    assert(b@.len() == b.len());
    (b[i] as u32) | ((b[i + 1] as u32) << 8u32) | ((b[i + 2] as u32) << 16u32) | ((
    b[i + 3] as u32) << 24u32)
}

/// The embedding words stored in an embedding file's bytes.
///
/// A file shorter than its header or than the words it announces gives
/// `StorageRead`; an announced dimension of 0 or above `MAX_EMBEDDING_DIM`
/// gives `OnnxError` with the text `Invalid embedding dimension: N`.
/// Bytes after the announced words are ignored.
pub fn decode_embedding(bytes: &Vec<u8>) -> (res: Result<Vec<u32>, RustfaceError>)
    ensures
        res is Ok <==> stored_embedding(bytes@) is Some,
        res matches Ok(w) ==> stored_embedding(bytes@) == Some(w@),
        bytes@.len() < 4 ==> (res matches Err(RustfaceError::StorageRead(m)) && m@
            == SHORT_FILE@),
        bytes@.len() >= 4 && !valid_dim(announced_dim(bytes@)) ==> (res matches Err(
            RustfaceError::OnnxError(m),
        ) && m@ == "Invalid embedding dimension: "@ + decimal(announced_dim(bytes@) as nat)),
        bytes@.len() >= 4 && valid_dim(announced_dim(bytes@)) && bytes@.len() < 4 + 4
            * announced_dim(bytes@) ==> (res matches Err(RustfaceError::StorageRead(m)) && m@
            == SHORT_FILE@),
{
    if bytes.len() < 4 {
        return Err(RustfaceError::StorageRead(String::from_str(SHORT_FILE)));
    }
    let n = read_word(bytes, 0);
    if n == 0 || n > MAX_EMBEDDING_DIM {
        let mut m = String::from_str("Invalid embedding dimension: ");
        push_decimal(&mut m, n as u64);
        return Err(RustfaceError::OnnxError(m));
    }
    let len: usize = 4 + 4 * (n as usize);
    if bytes.len() < len {
        return Err(RustfaceError::StorageRead(String::from_str(SHORT_FILE)));
    }
    let mut words: Vec<u32> = Vec::new();
    let mut i: usize = 0;
    while i < n as usize
        invariant
            i <= n,
            n <= MAX_EMBEDDING_DIM,
            4 + 4 * n <= bytes@.len(),
            words@ == stored_words(bytes@, i as nat),
        decreases n - i,
    {
        let w = read_word(bytes, 4 + 4 * i);
        words.push(w);
        i = i + 1;
        assert(words@ =~= stored_words(bytes@, i as nat));
    }
    Ok(words)
}

/// What `PathBuf::join` gives on Unix: an absolute `p` replaces `base`;
/// otherwise `p` is appended, after a `/` unless `base` is empty or already
/// ends with one.
pub open spec fn join_path(base: Seq<char>, p: Seq<char>) -> Seq<char> {
    if p.len() > 0 && p[0] == '/' {
        p
    } else if base.len() > 0 && base.last() != '/' {
        base + seq!['/'] + p
    } else {
        base + p
    }
}

/// `PathBuf::join` on Unix: a separator-aware concatenation of two paths.
fn join_path_exec(base: &str, p: &str) -> (res: String)
    ensures
        res@ == join_path(base@, p@),
{
    let vb = chars_of(base);
    let vp = chars_of(p);
    if vp.len() > 0 && vp[0] == '/' {
        return string_of(&vp);
    }
    let mut s = string_of(&vb);
    if vb.len() > 0 && vb[vb.len() - 1] != '/' {
        s.push('/');
    }
    s.concat(p)
}

/// Whether `path` names something that exists on the file system. What
/// `std::path::Path::exists` answers depends on the disk, so nothing is
/// stated of it.
#[verifier::external_body]
fn path_exists(path: &str) -> bool {
    std::path::Path::new(path).exists()
}

/// The store of enrolled embeddings: one `<username>.bin` file per user
/// under a base directory.
pub struct FaceStore {
    base_path: String,
}

impl FaceStore {
    /// The base directory of this store.
    pub closed spec fn base(&self) -> Seq<char> {
        self.base_path@
    }

    /// The file that holds the embedding of `username`.
    pub open spec fn user_file(&self, username: Seq<char>) -> Seq<char> {
        join_path(self.base(), username + ".bin"@)
    }

    /// A store rooted at `base_path`.
    pub fn new(base_path: &str) -> (s: Self)
        ensures
            s.base() == base_path@,
    {
        FaceStore { base_path: String::from_str(base_path) }
    }

    /// The store rooted at `FACES_DIR`.
    pub fn default() -> (s: Self)
        ensures
            s.base() == FACES_DIR@,
    {
        Self::new(FACES_DIR)
    }

    /// The path of the embedding file of `username`: the base directory
    /// joined with `<username>.bin`.
    pub fn user_path(&self, username: &str) -> (p: String)
        ensures
            p@ == self.user_file(username@),
    {
        let file = String::from_str(username).concat(".bin");
        join_path_exec(self.base_path.as_str(), file.as_str())
    }

    /// Whether `username` has an enrolled embedding file. The answer comes
    /// from the file system, for the path `user_path(username)`.
    pub fn is_enrolled(&self, username: &str) -> bool {
        let p = self.user_path(username);
        path_exists(p.as_str())
    }
}

/// Whether `c` is an ASCII letter or digit.
pub open spec fn is_ascii_alnum(c: char) -> bool {
    (48 <= (c as int) && (c as int) <= 57) || (65 <= (c as int) && (c as int) <= 90) || (97
        <= (c as int) && (c as int) <= 122)
}

/// Whether a file stem may be used as the owning user and group of an
/// embedding file: it does not start with `-`, and holds only ASCII letters,
/// digits, `_` and `-`.
pub open spec fn is_owner_name(s: Seq<char>) -> bool {
    &&& !(s.len() > 0 && s[0] == '-')
    &&& forall|i: int|
        0 <= i < s.len() ==> is_ascii_alnum(#[trigger] s[i]) || s[i] == '_' || s[i] == '-'
}

/// Whether `c` may stand in an owner name.
fn owner_char(c: char) -> (b: bool)
    ensures
        b == (is_ascii_alnum(c) || c == '_' || c == '-'),
{
    ('0' <= c && c <= '9') || ('A' <= c && c <= 'Z') || ('a' <= c && c <= 'z') || c == '_' || c
        == '-'
}

/// The `user:group` argument that hands an embedding file with file stem
/// `stem` to the user of that name, or `None` when the stem is not a safe
/// user name and the file keeps its owner.
pub fn chown_target(stem: &str) -> (res: Option<String>)
    ensures
        res is Some <==> is_owner_name(stem@),
        res matches Some(t) ==> t@ == stem@ + seq![':'] + stem@,
{
    let v = chars_of(stem);
    if v.len() > 0 && v[0] == '-' {
        return None;
    }
    let mut i: usize = 0;
    while i < v.len()
        invariant
            v@ == stem@,
            i <= v.len(),
            forall|j: int|
                0 <= j < i ==> is_ascii_alnum(#[trigger] v@[j]) || v@[j] == '_' || v@[j] == '-',
        decreases v.len() - i,
    {
        if !owner_char(v[i]) {
            return None;
        }
        i = i + 1;
    }
    let mut t = String::from_str(stem);
    t.push(':');
    Some(t.concat(stem))
}

/// An embedding written to a file reads back unchanged: for every embedding
/// whose dimension may be stored (1 to `MAX_EMBEDDING_DIM`), the file that
/// `encode_embedding` writes holds exactly its words.
pub proof fn lemma_embedding_roundtrip(ws: Seq<u32>)
    requires
        1 <= ws.len() <= MAX_EMBEDDING_DIM,
    ensures
        stored_embedding(embedding_file(ws)) == Some(ws),
{
    let b = embedding_file(ws);
    let n = ws.len() as u32;
    lemma_le_roundtrip(n);
    assert(announced_dim(b) == n);
    assert(b.len() == 4 + 4 * ws.len());
    assert forall|i: int| 0 <= i < ws.len() implies #[trigger] stored_words(b, ws.len())[i]
        == ws[i] by {
        lemma_le_roundtrip(ws[i]);
        assert((4 * i) / 4 == i);
        assert((4 * i + 1) / 4 == i);
        assert((4 * i + 2) / 4 == i);
        assert((4 * i + 3) / 4 == i);
        assert(b[4 + 4 * i] == le_bytes(ws[i])[0]);
        assert(b[4 + 4 * i + 1] == le_bytes(ws[i])[1]);
        assert(b[4 + 4 * i + 2] == le_bytes(ws[i])[2]);
        assert(b[4 + 4 * i + 3] == le_bytes(ws[i])[3]);
    }
    assert(stored_words(b, ws.len()) =~= ws);
}

/// A file that reads as an embedding starts with exactly the bytes that
/// writing that embedding produces; whatever follows is ignored.
pub proof fn lemma_stored_file_prefix(b: Seq<u8>)
    requires
        stored_embedding(b) is Some,
    ensures
        embedding_file(stored_embedding(b)->Some_0) == b.take(
            (4 + 4 * stored_embedding(b)->Some_0.len()) as int,
        ),
{
    let n = announced_dim(b);
    let ws = stored_words(b, n as nat);
    lemma_word_bytes_roundtrip(b[0], b[1], b[2], b[3]);
    assert forall|p: int| 0 <= p < 4 * ws.len() implies #[trigger] words_bytes(ws)[p] == b[4
        + p] by {
        let i = p / 4;
        lemma_word_bytes_roundtrip(b[4 + 4 * i], b[4 + 4 * i + 1], b[4 + 4 * i + 2], b[4 + 4
            * i + 3]);
    }
    assert(embedding_file(ws) =~= b.take((4 + 4 * ws.len()) as int));
}

/// An embedding whose dimension may not be stored (none at all, or more than
/// `MAX_EMBEDDING_DIM` while still fitting the 32-bit header) does not read
/// back from the file that writing it produces.
pub proof fn lemma_unstorable_dim_rejected(ws: Seq<u32>)
    requires
        ws.len() == 0 || (MAX_EMBEDDING_DIM < ws.len() <= u32::MAX),
    ensures
        stored_embedding(embedding_file(ws)) is None,
{
    lemma_le_roundtrip(ws.len() as u32);
    assert(announced_dim(embedding_file(ws)) == ws.len());
}

/// A user's embedding lives at `/etc/rustface/faces/<username>.bin` in the
/// default store, for every user name that does not start with `/` (one
/// that does names an absolute path, which `PathBuf::join` takes as it is).
pub proof fn lemma_default_user_file(username: Seq<char>)
    requires
        !(username.len() > 0 && username[0] == '/'),
    ensures
        join_path(FACES_DIR@, username + ".bin"@) == "/etc/rustface/faces/"@ + username
            + ".bin"@,
{
    reveal_strlit("/etc/rustface/faces");
    reveal_strlit("/etc/rustface/faces/");
    reveal_strlit(".bin");
    let p = username + ".bin"@;
    if username.len() == 0 {
        assert(p[0] == '.');
    } else {
        assert(p[0] == username[0]);
    }
    assert(FACES_DIR@ + seq!['/'] =~= "/etc/rustface/faces/"@);
    assert(FACES_DIR@ + seq!['/'] + p =~= "/etc/rustface/faces/"@ + username + ".bin"@);
}

/// A user's embedding file is named exactly after the user: `<username>.bin`
/// with the user name unchanged. It lies directly in the store's base
/// directory (after a `/` unless the base is empty or already ends with one),
/// except for a user name that starts with `/`, which is taken as an
/// absolute path; either way the path ends with `<username>.bin`.
pub proof fn lemma_user_file(s: FaceStore, u: Seq<char>)
    ensures
        u.len() > 0 && u[0] == '/' ==> s.user_file(u) == u + ".bin"@,
        !(u.len() > 0 && u[0] == '/') && s.base().len() > 0 && s.base().last() != '/'
            ==> s.user_file(u) == s.base() + seq!['/'] + u + ".bin"@,
        !(u.len() > 0 && u[0] == '/') && !(s.base().len() > 0 && s.base().last() != '/')
            ==> s.user_file(u) == s.base() + u + ".bin"@,
        s.user_file(u).len() >= u.len() + 4,
        s.user_file(u).skip(s.user_file(u).len() - (u.len() + 4)) == u + ".bin"@,
{
    reveal_strlit(".bin");
    let p = u + ".bin"@;
    if u.len() == 0 {
        assert(p[0] == '.');
    } else {
        assert(p[0] == u[0]);
    }
    let f = s.user_file(u);
    if u.len() > 0 && u[0] == '/' {
        assert(f.skip(f.len() - (u.len() + 4)) =~= p);
    } else if s.base().len() > 0 && s.base().last() != '/' {
        assert(f == s.base() + seq!['/'] + p);
        assert(f.skip(f.len() - (u.len() + 4)) =~= p);
    } else {
        assert(f.skip(f.len() - (u.len() + 4)) =~= p);
    }
}

/// The little-endian bytes of a word, by arithmetic.
pub proof fn lemma_le_bytes_values(v: u32)
    ensures
        le_bytes(v).len() == 4,
        le_bytes(v)[0] as int == v as int % 256,
        le_bytes(v)[1] as int == (v as int / 256) % 256,
        le_bytes(v)[2] as int == (v as int / 65536) % 256,
        le_bytes(v)[3] as int == v as int / 16777216,
{
    assert((v & 0xff) as u8 as u32 == v % 256) by (bit_vector);
    assert(((v >> 8u32) & 0xff) as u8 as u32 == (v / 256) % 256) by (bit_vector);
    assert(((v >> 16u32) & 0xff) as u8 as u32 == (v / 65536) % 256) by (bit_vector);
    assert(((v >> 24u32) & 0xff) as u8 as u32 == v / 16777216) by (bit_vector);
}

/// The word of four little-endian bytes, by arithmetic.
pub proof fn lemma_le_word_value(b0: u8, b1: u8, b2: u8, b3: u8)
    ensures
        le_word(b0, b1, b2, b3) as int == b0 as int + 256 * (b1 as int) + 65536 * (b2 as int)
            + 16777216 * (b3 as int),
{
    assert(((b0 as u32) | ((b1 as u32) << 8u32) | ((b2 as u32) << 16u32) | ((b3 as u32)
        << 24u32)) == (b0 as u32) + 256 * (b1 as u32) + 65536 * (b2 as u32) + 16777216 * (
    b3 as u32)) by (bit_vector);
}

/// The file of an embedding is `4 + 4 * N` bytes: the dimension `N` (taken
/// modulo 2^32) in four little-endian bytes, then each word in four
/// little-endian bytes, in order.
pub proof fn lemma_file_layout(ws: Seq<u32>)
    ensures
        embedding_file(ws).len() == 4 + 4 * ws.len(),
        ({
            let n = (ws.len() as u32) as int;
            &&& embedding_file(ws)[0] as int == n % 256
            &&& embedding_file(ws)[1] as int == (n / 256) % 256
            &&& embedding_file(ws)[2] as int == (n / 65536) % 256
            &&& embedding_file(ws)[3] as int == n / 16777216
        }),
        forall|i: int|
            0 <= i < ws.len() ==> {
                &&& #[trigger] embedding_file(ws)[4 + 4 * i] as int == ws[i] as int % 256
                &&& embedding_file(ws)[5 + 4 * i] as int == (ws[i] as int / 256) % 256
                &&& embedding_file(ws)[6 + 4 * i] as int == (ws[i] as int / 65536) % 256
                &&& embedding_file(ws)[7 + 4 * i] as int == ws[i] as int / 16777216
            },
{
    lemma_le_bytes_values(ws.len() as u32);
    assert forall|i: int| 0 <= i < ws.len() implies {
        &&& #[trigger] embedding_file(ws)[4 + 4 * i] as int == ws[i] as int % 256
        &&& embedding_file(ws)[5 + 4 * i] as int == (ws[i] as int / 256) % 256
        &&& embedding_file(ws)[6 + 4 * i] as int == (ws[i] as int / 65536) % 256
        &&& embedding_file(ws)[7 + 4 * i] as int == ws[i] as int / 16777216
    } by {
        lemma_le_bytes_values(ws[i]);
        assert((4 * i) / 4 == i);
        assert((4 * i + 1) / 4 == i);
        assert((4 * i + 2) / 4 == i);
        assert((4 * i + 3) / 4 == i);
    }
}

/// What reading a file gives: with `N` the little-endian number in its first
/// four bytes, it holds an embedding exactly when it has those four bytes,
/// `1 <= N <= 4096`, and at least `4 + 4 * N` bytes; the embedding then has
/// `N` words, word `i` being the little-endian number in bytes `4 + 4i` to
/// `7 + 4i`.
pub proof fn lemma_file_reading(b: Seq<u8>)
    ensures
        b.len() >= 4 ==> announced_dim(b) as int == b[0] as int + 256 * (b[1] as int) + 65536
            * (b[2] as int) + 16777216 * (b[3] as int),
        stored_embedding(b) is Some <==> (b.len() >= 4 && 1 <= announced_dim(b) <= 4096
            && b.len() >= 4 + 4 * announced_dim(b)),
        stored_embedding(b) matches Some(ws) ==> ws.len() == announced_dim(b) && forall|i: int|
            0 <= i < ws.len() ==> #[trigger] ws[i] as int == b[4 + 4 * i] as int + 256 * (b[5
                + 4 * i] as int) + 65536 * (b[6 + 4 * i] as int) + 16777216 * (b[7 + 4
                * i] as int),
{
    if b.len() >= 4 {
        lemma_le_word_value(b[0], b[1], b[2], b[3]);
    }
    if let Some(ws) = stored_embedding(b) {
        assert forall|i: int| 0 <= i < ws.len() implies #[trigger] ws[i] as int == b[4 + 4
            * i] as int + 256 * (b[5 + 4 * i] as int) + 65536 * (b[6 + 4 * i] as int)
            + 16777216 * (b[7 + 4 * i] as int) by {
            lemma_le_word_value(b[4 + 4 * i], b[4 + 4 * i + 1], b[4 + 4 * i + 2], b[4 + 4 * i + 3]);
        }
    }
}

/// An embedding file is handed to the user named by its stem exactly when
/// the stem does not start with `-` (so it cannot be read as an option) and
/// every character is an ASCII digit (48-57), capital (65-90) or small
/// (97-122) letter, `_` or `-`; in particular a stem with `.`, `/`, `:` or a
/// space is never used.
pub proof fn lemma_owner_names(s: Seq<char>)
    ensures
        is_owner_name(s) <==> (!(s.len() > 0 && s[0] == '-') && forall|i: int|
            0 <= i < s.len() ==> {
                let c = #[trigger] s[i] as int;
                (48 <= c <= 57) || (65 <= c <= 90) || (97 <= c <= 122) || c == 95 || c == 45
            }),
        (exists|i: int|
            0 <= i < s.len() && (s[i] == '.' || s[i] == '/' || s[i] == ':' || s[i] == ' '))
            ==> !is_owner_name(s),
{
    if exists|i: int|
        0 <= i < s.len() && (s[i] == '.' || s[i] == '/' || s[i] == ':' || s[i] == ' ') {
        let i = choose|i: int|
            0 <= i < s.len() && (s[i] == '.' || s[i] == '/' || s[i] == ':' || s[i] == ' ');
        assert(!(is_ascii_alnum(s[i]) || s[i] == '_' || s[i] == '-'));
    }
    if is_owner_name(s) {
        assert forall|i: int| 0 <= i < s.len() implies {
            let c = #[trigger] s[i] as int;
            (48 <= c <= 57) || (65 <= c <= 90) || (97 <= c <= 122) || c == 95 || c == 45
        } by {
            assert(is_ascii_alnum(s[i]) || s[i] == '_' || s[i] == '-');
        }
    }
    if !(s.len() > 0 && s[0] == '-') && forall|i: int|
        0 <= i < s.len() ==> {
            let c = #[trigger] s[i] as int;
            (48 <= c <= 57) || (65 <= c <= 90) || (97 <= c <= 122) || c == 95 || c == 45
        } {
        assert forall|i: int| 0 <= i < s.len() implies is_ascii_alnum(#[trigger] s[i]) || s[i]
            == '_' || s[i] == '-' by {
            let c = s[i] as int;
            assert((48 <= c <= 57) || (65 <= c <= 90) || (97 <= c <= 122) || c == 95 || c == 45);
            if c == 95 {
                assert(s[i] == '_');
            }
            if c == 45 {
                assert(s[i] == '-');
            }
        }
    }
}

} // verus!
