//! Incremental SHA-256 over a stream of bytes, rendered as lower-case hex.
//!
//! The hash itself is computed by the `sha2` crate and the hex rendering by
//! the `hex` crate. What this module proves is the bookkeeping around them:
//! a [`StreamDigest`] that was fed chunks `c1, c2, ..` in that order reports
//! the digest of their concatenation, no byte skipped or moved.

use vstd::prelude::*;

use crate::text::digit_char;

verus! {

/// A SHA-256 computation in progress, held by the `sha2` crate's hasher.
#[verifier::external_body]
pub struct Sha256State {
    inner: sha2::Sha256,
}

/// The bytes that a hasher has taken in so far, oldest first.
pub uninterp spec fn absorbed(h: Sha256State) -> Seq<u8>;

/// The SHA-256 digest of `data`, as raw bytes.
pub uninterp spec fn sha256(data: Seq<u8>) -> Seq<u8>;

/// The character of the hexadecimal digit `d`, letters in lower case.
pub open spec fn hex_digit(d: nat) -> char
    recommends
        d < 16,
{
    if d < 10 {
        digit_char(d)
    } else if d == 10 {
        'a'
    } else if d == 11 {
        'b'
    } else if d == 12 {
        'c'
    } else if d == 13 {
        'd'
    } else if d == 14 {
        'e'
    } else {
        'f'
    }
}

/// Two lower-case hexadecimal digits per byte, high half first.
pub open spec fn hex_text(data: Seq<u8>) -> Seq<char> {
    Seq::new(
        2 * data.len(),
        |i: int|
            if i % 2 == 0 {
                hex_digit((data[i / 2] / 16) as nat)
            } else {
                hex_digit((data[i / 2] % 16) as nat)
            },
    )
}

/// The SHA-256 digest of `data`, in hexadecimal.
pub open spec fn sha256_hex(data: Seq<u8>) -> Seq<char> {
    hex_text(sha256(data))
}

/// Whether `c` is one of `0`..`9`, `a`..`f`.
pub open spec fn is_lower_hex(c: char) -> bool {
    ('0' <= c && c <= '9') || ('a' <= c && c <= 'f')
}

/// `sha2::Sha256::new` (from the `Digest` trait): a hasher that has taken in
/// no bytes yet.
#[verifier::external_body]
fn hasher_new() -> (h: Sha256State)
    ensures
        absorbed(h) == Seq::<u8>::empty(),
{
    Sha256State { inner: <sha2::Sha256 as sha2::Digest>::new() }
}

/// `sha2::Digest::update`: the hasher takes in `data` after everything it
/// took in before.
#[verifier::external_body]
fn hasher_update(h: &mut Sha256State, data: &[u8])
    ensures
        absorbed(*final(h)) == absorbed(*old(h)) + data@,
{
    sha2::Digest::update(&mut h.inner, data);
}

/// `sha2::Digest::finalize`: the SHA-256 digest of everything the hasher took
/// in, which is 32 bytes long.
#[verifier::external_body]
fn hasher_finalize(h: Sha256State) -> (out: Vec<u8>)
    ensures
        out@ == sha256(absorbed(h)),
        out@.len() == 32,
{
    sha2::Digest::finalize(h.inner).to_vec()
}

/// `hex::encode`: each byte becomes two lower-case hexadecimal digits, the
/// high half first.
#[verifier::external_body]
fn hex_encode(data: &Vec<u8>) -> (out: String)
    ensures
        out@ == hex_text(data@),
{
    hex::encode(data)
}

/// Every character of a hex rendering is a lower-case hexadecimal digit, and
/// there are two of them per byte.
pub proof fn lemma_hex_text_shape(data: Seq<u8>)
    ensures
        hex_text(data).len() == 2 * data.len(),
        forall|i: int| 0 <= i < hex_text(data).len() ==> is_lower_hex(#[trigger] hex_text(data)[i]),
{
    assert forall|i: int| 0 <= i < hex_text(data).len() implies is_lower_hex(
        #[trigger] hex_text(data)[i],
    ) by {
        let b = data[i / 2];
        let hi = (b / 16) as nat;
        let lo = (b % 16) as nat;
        assert(hi < 16 && lo < 16);
        assert(is_lower_hex(hex_digit(hi)));
        assert(is_lower_hex(hex_digit(lo)));
    }
}

/// A running SHA-256 digest. Its view is the sequence of bytes fed so far.
pub struct StreamDigest {
    state: Sha256State,
}

impl View for StreamDigest {
    type V = Seq<u8>;

    closed spec fn view(&self) -> Seq<u8> {
        absorbed(self.state)
    }
}

impl StreamDigest {
    /// A digest that has seen no bytes.
    pub fn new() -> (d: Self)
        ensures
            d@ == Seq::<u8>::empty(),
    {
        StreamDigest { state: hasher_new() }
    }

    /// Feeds `chunk` after everything fed before.
    pub fn update(&mut self, chunk: &[u8])
        ensures
            final(self)@ == old(self)@ + chunk@,
    {
        hasher_update(&mut self.state, chunk);
    }

    /// The digest of everything fed, as 64 lower-case hexadecimal digits.
    pub fn finish(self) -> (out: String)
        ensures
            out@ == sha256_hex(self@),
            out@.len() == 64,
            forall|i: int| 0 <= i < 64 ==> is_lower_hex(#[trigger] out@[i]),
    {
        let raw = hasher_finalize(self.state);
        let out = hex_encode(&raw);
        proof {
            lemma_hex_text_shape(raw@);
        }
        out
    }
}

/// The SHA-256 digest of `data` as 64 lower-case hexadecimal digits.
pub fn sha256_hex_of(data: &[u8]) -> (out: String)
    ensures
        out@ == sha256_hex(data@),
        out@.len() == 64,
{
    let mut d = StreamDigest::new();
    d.update(data);
    assert(d@ =~= data@);
    d.finish()
}

} // verus!
