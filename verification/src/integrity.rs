//! Content digests: which algorithm a manifest names, how a digest is computed
//! over a stream of chunks, and when a computed digest satisfies an expected
//! one.

use crate::text::{chars_of, text_is};
use vstd::prelude::*;

verus! {

broadcast use vstd::string::group_string_axioms;

/// The digest algorithms the library can compute. `Disabled` stands for "do
/// not verify".
#[derive(Clone, Copy, Debug, PartialEq, Eq, Structural)]
pub enum DigestAlgorithm {
    Disabled,
    Sha1,
    Sha256,
    Sha512,
}

/// The algorithm that a manifest's label stands for. Manifests name `sha1` and
/// `sha512`; any other label, known or not, disables verification.
pub open spec fn algorithm_of(label: Seq<char>) -> DigestAlgorithm {
    if label == "sha1"@ {
        DigestAlgorithm::Sha1
    } else if label == "sha512"@ {
        DigestAlgorithm::Sha512
    } else {
        DigestAlgorithm::Disabled
    }
}

/// Reads a manifest's algorithm label: see [`algorithm_of`].
pub fn parse_algorithm(label: &str) -> (r: DigestAlgorithm)
    ensures
        r == algorithm_of(label@),
{
    let chars = chars_of(label);
    if text_is(&chars, "sha1") {
        DigestAlgorithm::Sha1
    } else if text_is(&chars, "sha512") {
        DigestAlgorithm::Sha512
    } else {
        DigestAlgorithm::Disabled
    }
}

/// The SHA-1 digest of `data`, 20 bytes, as the `sha1` crate computes it.
pub uninterp spec fn sha1_of(data: Seq<u8>) -> Seq<u8>;

/// The SHA-256 digest of `data`, 32 bytes, as the `sha2` crate computes it.
pub uninterp spec fn sha256_of(data: Seq<u8>) -> Seq<u8>;

/// The SHA-512 digest of `data`, 64 bytes, as the `sha2` crate computes it.
pub uninterp spec fn sha512_of(data: Seq<u8>) -> Seq<u8>;

/// The bytes that a SHA-1 computation has taken in so far.
pub uninterp spec fn sha1_absorbed(h: Sha1Hasher) -> Seq<u8>;

/// The bytes that a SHA-256 computation has taken in so far.
pub uninterp spec fn sha256_absorbed(h: Sha256Hasher) -> Seq<u8>;

/// The bytes that a SHA-512 computation has taken in so far.
pub uninterp spec fn sha512_absorbed(h: Sha512Hasher) -> Seq<u8>;

/// A running `sha1::Sha1` computation.
#[verifier::external_body]
pub struct Sha1Hasher {
    inner: sha1::Sha1,
}

/// A running `sha2::Sha256` computation.
#[verifier::external_body]
pub struct Sha256Hasher {
    inner: sha2::Sha256,
}

/// A running `sha2::Sha512` computation.
#[verifier::external_body]
pub struct Sha512Hasher {
    inner: sha2::Sha512,
}

/// `Digest::new` of `sha1::Sha1`: a computation that has taken in nothing.
#[verifier::external_body]
fn sha1_new() -> (h: Sha1Hasher)
    ensures
        sha1_absorbed(h) == Seq::<u8>::empty(),
{
    Sha1Hasher { inner: sha1::Digest::new() }
}

/// `Digest::update` of `sha1::Sha1`: the chunk is appended to what was taken in.
#[verifier::external_body]
fn sha1_update(h: &mut Sha1Hasher, chunk: &[u8])
    ensures
        sha1_absorbed(*final(h)) == sha1_absorbed(*old(h)) + chunk@,
{
    sha1::Digest::update(&mut h.inner, chunk)
}

/// `Digest::finalize` of `sha1::Sha1`: the digest of all that was taken in.
#[verifier::external_body]
fn sha1_finalize(h: Sha1Hasher) -> (out: Vec<u8>)
    ensures
        out@ == sha1_of(sha1_absorbed(h)),
{
    sha1::Digest::finalize(h.inner).to_vec()
}

/// `Digest::new` of `sha2::Sha256`: a computation that has taken in nothing.
#[verifier::external_body]
fn sha256_new() -> (h: Sha256Hasher)
    ensures
        sha256_absorbed(h) == Seq::<u8>::empty(),
{
    Sha256Hasher { inner: sha2::Digest::new() }
}

/// `Digest::update` of `sha2::Sha256`: the chunk is appended to what was taken in.
#[verifier::external_body]
fn sha256_update(h: &mut Sha256Hasher, chunk: &[u8])
    ensures
        sha256_absorbed(*final(h)) == sha256_absorbed(*old(h)) + chunk@,
{
    sha2::Digest::update(&mut h.inner, chunk)
}

/// `Digest::finalize` of `sha2::Sha256`: the digest of all that was taken in.
#[verifier::external_body]
fn sha256_finalize(h: Sha256Hasher) -> (out: Vec<u8>)
    ensures
        out@ == sha256_of(sha256_absorbed(h)),
{
    sha2::Digest::finalize(h.inner).to_vec()
}

/// `Digest::new` of `sha2::Sha512`: a computation that has taken in nothing.
#[verifier::external_body]
fn sha512_new() -> (h: Sha512Hasher)
    ensures
        sha512_absorbed(h) == Seq::<u8>::empty(),
{
    Sha512Hasher { inner: sha2::Digest::new() }
}

/// `Digest::update` of `sha2::Sha512`: the chunk is appended to what was taken in.
#[verifier::external_body]
fn sha512_update(h: &mut Sha512Hasher, chunk: &[u8])
    ensures
        sha512_absorbed(*final(h)) == sha512_absorbed(*old(h)) + chunk@,
{
    sha2::Digest::update(&mut h.inner, chunk)
}

/// `Digest::finalize` of `sha2::Sha512`: the digest of all that was taken in.
#[verifier::external_body]
fn sha512_finalize(h: Sha512Hasher) -> (out: Vec<u8>)
    ensures
        out@ == sha512_of(sha512_absorbed(h)),
{
    sha2::Digest::finalize(h.inner).to_vec()
}

/// The lowercase hexadecimal digit for a value below 16.
pub open spec fn hex_digit(n: int) -> char {
    seq!['0', '1', '2', '3', '4', '5', '6', '7', '8', '9', 'a', 'b', 'c', 'd', 'e', 'f'][n]
}

/// The lowercase hexadecimal text of `bytes`: two digits per byte, the high
/// half first.
pub open spec fn hex_lower(bytes: Seq<u8>) -> Seq<char> {
    Seq::new(
        2 * bytes.len(),
        |i: int|
            if i % 2 == 0 {
                hex_digit(bytes[i / 2] as int / 16)
            } else {
                hex_digit(bytes[i / 2] as int % 16)
            },
    )
}

/// `hex::encode`: every byte becomes two lowercase hexadecimal digits.
#[verifier::external_body]
fn hex_encode(bytes: &Vec<u8>) -> (r: String)
    ensures
        r@ == hex_lower(bytes@),
{
    hex::encode(bytes)
}

/// The digest of `data` under `algorithm` as lowercase hexadecimal text; empty
/// where the algorithm is `Disabled`.
pub open spec fn digest_text(algorithm: DigestAlgorithm, data: Seq<u8>) -> Seq<char> {
    match algorithm {
        DigestAlgorithm::Disabled => Seq::<char>::empty(),
        DigestAlgorithm::Sha1 => hex_lower(sha1_of(data)),
        DigestAlgorithm::Sha256 => hex_lower(sha256_of(data)),
        DigestAlgorithm::Sha512 => hex_lower(sha512_of(data)),
    }
}

enum Hashing {
    Off(Ghost<Seq<u8>>),
    Sha1(Sha1Hasher),
    Sha256(Sha256Hasher),
    Sha512(Sha512Hasher),
}

/// A digest computation that takes its input chunk by chunk, in bounded
/// memory.
pub struct DigestState {
    inner: Hashing,
}

impl DigestState {
    /// The algorithm this computation runs.
    pub closed spec fn algorithm(self) -> DigestAlgorithm {
        match self.inner {
            Hashing::Off(_) => DigestAlgorithm::Disabled,
            Hashing::Sha1(_) => DigestAlgorithm::Sha1,
            Hashing::Sha256(_) => DigestAlgorithm::Sha256,
            Hashing::Sha512(_) => DigestAlgorithm::Sha512,
        }
    }

    /// All the bytes taken in so far, in order.
    pub closed spec fn absorbed(self) -> Seq<u8> {
        match self.inner {
            Hashing::Off(seen) => seen@,
            Hashing::Sha1(h) => sha1_absorbed(h),
            Hashing::Sha256(h) => sha256_absorbed(h),
            Hashing::Sha512(h) => sha512_absorbed(h),
        }
    }

    /// Starts a computation under `algorithm`.
    pub fn new(algorithm: DigestAlgorithm) -> (s: DigestState)
        ensures
            s.algorithm() == algorithm,
            s.absorbed() == Seq::<u8>::empty(),
    {
        let inner = match algorithm {
            DigestAlgorithm::Disabled => Hashing::Off(Ghost(Seq::<u8>::empty())),
            DigestAlgorithm::Sha1 => Hashing::Sha1(sha1_new()),
            DigestAlgorithm::Sha256 => Hashing::Sha256(sha256_new()),
            DigestAlgorithm::Sha512 => Hashing::Sha512(sha512_new()),
        };
        DigestState { inner }
    }

    /// Takes in the next chunk of the stream.
    pub fn update(&mut self, chunk: &[u8])
        ensures
            final(self).algorithm() == old(self).algorithm(),
            final(self).absorbed() == old(self).absorbed() + chunk@,
    {
        match &mut self.inner {
            Hashing::Off(seen) => {
                proof {
                    *seen = Ghost(seen@ + chunk@);
                }
            },
            Hashing::Sha1(h) => sha1_update(h, chunk),
            Hashing::Sha256(h) => sha256_update(h, chunk),
            Hashing::Sha512(h) => sha512_update(h, chunk),
        }
    }

    /// Ends the computation: the digest of the whole stream as lowercase
    /// hexadecimal text.
    pub fn finish(self) -> (r: String)
        ensures
            r@ == digest_text(self.algorithm(), self.absorbed()),
    {
        match self.inner {
            Hashing::Off(_) => String::new(),
            Hashing::Sha1(h) => {
                let out = sha1_finalize(h);
                hex_encode(&out)
            },
            Hashing::Sha256(h) => {
                let out = sha256_finalize(h);
                hex_encode(&out)
            },
            Hashing::Sha512(h) => {
                let out = sha512_finalize(h);
                hex_encode(&out)
            },
        }
    }
}

/// The digest of `data` under `algorithm` as lowercase hexadecimal text.
pub fn digest(algorithm: DigestAlgorithm, data: &[u8]) -> (r: String)
    ensures
        r@ == digest_text(algorithm, data@),
{
    let mut state = DigestState::new(algorithm);
    state.update(data);
    assert(Seq::<u8>::empty() + data@ =~= data@);
    state.finish()
}

/// The code point of `c` with the ASCII capital letters folded onto the small
/// ones.
pub open spec fn fold_case(c: char) -> u32 {
    let n = c as u32;
    if 0x41 <= n <= 0x5A {
        (n + 0x20) as u32
    } else {
        n
    }
}

/// Whether two hexadecimal texts denote the same digest: they are equal up to
/// the case of the letters.
pub open spec fn digest_matches(computed: Seq<char>, expected: Seq<char>) -> bool {
    folded(computed) == folded(expected)
}

/// The code points of `s`, each with its case folded.
pub open spec fn folded(s: Seq<char>) -> Seq<u32> {
    Seq::new(s.len(), |i: int| fold_case(s[i]))
}

fn fold(c: char) -> (n: u32)
    ensures
        n == fold_case(c),
{
    let n: u32 = c as u32;
    if 0x41 <= n && n <= 0x5A {
        n + 0x20
    } else {
        n
    }
}

/// Compares a computed digest with an expected one without regard to the case
/// of the hexadecimal letters.
pub fn same_digest(computed: &str, expected: &str) -> (r: bool)
    ensures
        r == digest_matches(computed@, expected@),
{
    let a = chars_of(computed);
    let b = chars_of(expected);
    if a.len() != b.len() {
        assert(folded(a@).len() != folded(b@).len());
        return false;
    }
    let mut i: usize = 0;
    while i < a.len()
        invariant
            i <= a.len() == b.len(),
            a@ == computed@,
            b@ == expected@,
            forall|j: int| 0 <= j < i ==> fold_case(a@[j]) == fold_case(b@[j]),
        decreases a.len() - i,
    {
        if fold(a[i]) != fold(b[i]) {
            assert(folded(a@)[i as int] != folded(b@)[i as int]);
            return false;
        }
        i += 1;
    }
    assert(folded(a@) =~= folded(b@));
    true
}

/// Whether content has to be checked against `expected` at all: not when the
/// policy skips verification, nor without an expected digest or an algorithm.
pub open spec fn verification_required(
    skip: bool,
    expected: Seq<char>,
    algorithm: DigestAlgorithm,
) -> bool {
    !skip && expected.len() > 0 && algorithm != DigestAlgorithm::Disabled
}

/// Whether content whose digest is `computed` may be taken as the artifact.
pub open spec fn content_accepted(
    skip: bool,
    expected: Seq<char>,
    algorithm: DigestAlgorithm,
    computed: Seq<char>,
) -> bool {
    verification_required(skip, expected, algorithm) ==> digest_matches(computed, expected)
}

/// Whether content has to be checked: see [`verification_required`].
pub fn needs_verification(skip: bool, expected: &str, algorithm: DigestAlgorithm) -> (r: bool)
    ensures
        r == verification_required(skip, expected@, algorithm),
{
    let n = expected.unicode_len();
    !skip && n > 0 && algorithm != DigestAlgorithm::Disabled
}

/// Decides whether content whose digest is `computed` may be taken as the
/// artifact: always where verification is not required, else exactly when the
/// digests match.
pub fn accepts(skip: bool, expected: &str, algorithm: DigestAlgorithm, computed: &str) -> (r: bool)
    ensures
        r == content_accepted(skip, expected@, algorithm, computed@),
{
    if needs_verification(skip, expected, algorithm) {
        same_digest(computed, expected)
    } else {
        true
    }
}

} // verus!
