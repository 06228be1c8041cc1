//! SHA-256 fingerprints of file contents, written as lowercase hex.
use vstd::prelude::*;

use sha2::Digest;

use crate::text::push_char;

verus! {

/// The SHA-256 digest of `data`, as computed by the sha2 crate.
pub uninterp spec fn sha256_digest(data: Seq<u8>) -> Seq<u8>;

/// A SHA-256 computation of the sha2 crate that is fed its input in
/// pieces. Verus does not take sha2's `Sha256` as a declared type (it is an
/// alias of a generic wrapper whose bounds are traits of the digest crate),
/// so the state is held here, opaque, and known by the bytes fed into it.
#[verifier::external_body]
pub struct Sha256State {
    inner: sha2::Sha256,
}

/// The bytes fed so far into a SHA-256 state.
pub uninterp spec fn sha256_input(state: Sha256State) -> Seq<u8>;

/// Calls `sha2::Sha256::new`. The contract claims that nothing has been fed
/// into the new state.
#[verifier::external_body]
fn sha256_new() -> (s: Sha256State)
    ensures
        sha256_input(s) == Seq::<u8>::empty(),
{
    Sha256State { inner: sha2::Sha256::new() }
}

/// Calls `Digest::update` on the state with `data`. The contract claims
/// that `data` is appended to the bytes fed so far.
#[verifier::external_body]
fn sha256_update(state: &mut Sha256State, data: &[u8])
    ensures
        sha256_input(*final(state)) == sha256_input(*old(state)) + data@,
{
    state.inner.update(data)
}

/// Calls `Digest::finalize` on the state and copies the digest into a
/// vector. The contract names the digest as that of all the bytes fed, the
/// same as a one-shot `Sha256::digest` of them would give, and states its
/// length, 32 bytes, which the output type `GenericArray<u8, U32>` fixes;
/// nothing else of SHA-256 is stated.
#[verifier::external_body]
fn sha256_finalize(state: Sha256State) -> (r: Vec<u8>)
    ensures
        r@ == sha256_digest(sha256_input(state)),
        r@.len() == 32,
{
    state.inner.finalize().to_vec()
}

/// The lowercase hex digit for a value below 16.
pub open spec fn hex_digit(n: int) -> char {
    seq!['0', '1', '2', '3', '4', '5', '6', '7', '8', '9', 'a', 'b', 'c', 'd', 'e', 'f'][n]
}

/// Lowercase hex text of `bytes`: two digits per byte, high half first.
pub open spec fn hex_lower(bytes: Seq<u8>) -> Seq<char>
    decreases bytes.len(),
{
    if bytes.len() == 0 {
        Seq::empty()
    } else {
        let b = bytes.last();
        hex_lower(bytes.drop_last()).push(hex_digit(b as int / 16)).push(hex_digit(b as int % 16))
    }
}

/// Law: hex text has two characters per byte.
pub proof fn lemma_hex_lower_len(bytes: Seq<u8>)
    ensures
        hex_lower(bytes).len() == 2 * bytes.len(),
    decreases bytes.len(),
{
    if bytes.len() > 0 {
        lemma_hex_lower_len(bytes.drop_last());
    }
}

/// Law: the fingerprint depends on the content alone: equal contents give
/// equal fingerprints.
pub proof fn lemma_fingerprint_of_content(a: Seq<u8>, b: Seq<u8>)
    requires
        a == b,
    ensures
        hex_lower(sha256_digest(a)) == hex_lower(sha256_digest(b)),
{
}

/// The lowercase hex digit for `n`.
fn hex_digit_of(n: u8) -> (c: char)
    requires
        n < 16,
    ensures
        c == hex_digit(n as int),
{
    match n {
        0 => '0',
        1 => '1',
        2 => '2',
        3 => '3',
        4 => '4',
        5 => '5',
        6 => '6',
        7 => '7',
        8 => '8',
        9 => '9',
        10 => 'a',
        11 => 'b',
        12 => 'c',
        13 => 'd',
        14 => 'e',
        _ => 'f',
    }
}

/// Encodes `bytes` as lowercase hex.
pub fn encode_hex(bytes: &[u8]) -> (r: String)
    ensures
        r@ == hex_lower(bytes@),
{
    let mut r = String::new();
    let mut i: usize = 0;
    while i < bytes.len()
        invariant
            i <= bytes@.len(),
            r@ == hex_lower(bytes@.take(i as int)),
        decreases bytes.len() - i,
    {
        let b = bytes[i];
        push_char(&mut r, hex_digit_of(b / 16));
        push_char(&mut r, hex_digit_of(b % 16));
        assert(bytes@.take(i + 1).drop_last() =~= bytes@.take(i as int));
        i = i + 1;
    }
    assert(bytes@.take(i as int) =~= bytes@);
    r
}

/// A SHA-256 fingerprint computed piece by piece, as a file is read in
/// chunks. Its view is the bytes fed so far.
pub struct FileHasher {
    state: Sha256State,
}

impl View for FileHasher {
    type V = Seq<u8>;

    closed spec fn view(&self) -> Seq<u8> {
        sha256_input(self.state)
    }
}

impl FileHasher {
    /// A hasher that has been fed nothing.
    pub fn new() -> (h: Self)
        ensures
            h@ == Seq::<u8>::empty(),
    {
        FileHasher { state: sha256_new() }
    }

    /// Feeds the next piece of the input.
    pub fn update(&mut self, data: &[u8])
        ensures
            final(self)@ == old(self)@ + data@,
    {
        sha256_update(&mut self.state, data);
    }

    /// The SHA-256 fingerprint of all the bytes fed, as 64 lowercase hex
    /// characters.
    pub fn finish(self) -> (r: String)
        ensures
            r@ == hex_lower(sha256_digest(self@)),
            r@.len() == 64,
    {
        let digest = sha256_finalize(self.state);
        proof {
            lemma_hex_lower_len(digest@);
        }
        encode_hex(digest.as_slice())
    }
}

/// Law: feeding the input in two pieces gives the fingerprint of the whole.
pub proof fn lemma_pieces_hash_as_whole(first: Seq<u8>, second: Seq<u8>, whole: Seq<u8>)
    requires
        whole == first + second,
    ensures
        hex_lower(sha256_digest(Seq::<u8>::empty() + first + second)) == hex_lower(
            sha256_digest(whole),
        ),
{
    assert(Seq::<u8>::empty() + first + second =~= whole);
}

/// The SHA-256 fingerprint of `data` as 64 lowercase hex characters.
pub fn hash_bytes(data: &[u8]) -> (r: String)
    ensures
        r@ == hex_lower(sha256_digest(data@)),
        r@.len() == 64,
{
    let mut hasher = FileHasher::new();
    hasher.update(data);
    assert(hasher@ =~= data@);
    hasher.finish()
}

} // verus!
