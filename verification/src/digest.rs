//! The digest primitive shared by the audit ledger and the signature
//! verifier: a SHA-256 digest rendered as lowercase hex and truncated to a
//! fixed width of sixteen characters.

use vstd::prelude::*;
use vstd::slice::{slice_subrange, slice_to_vec};
use vstd::string::StrSliceExecFns;
use vstd::utf8::encode_utf8;

verus! {

/// Appends the UTF-8 bytes of `s` to `buf`. Digest preimages in this crate
/// are concatenations of the UTF-8 renderings of the record's fields.
pub(crate) fn push_str_bytes(buf: &mut Vec<u8>, s: &str)
    ensures
        final(buf)@ == old(buf)@ + encode_utf8(s@),
{
    let mut tail = s.as_bytes_vec();
    buf.append(&mut tail);
}

/// The SHA-256 digest of `data`: thirty-two bytes, a function of `data`
/// alone. Left uninterpreted; every statement about concrete digest values
/// comes from running the real implementation, never from this spec.
pub uninterp spec fn sha256_of(data: Seq<u8>) -> Seq<u8>;

/// Relies on sha2::Sha256: the digest is a function of the input bytes
/// alone, and SHA-256 output is exactly thirty-two bytes.
#[verifier::external_body]
fn sha256(data: &[u8]) -> (r: Vec<u8>)
    ensures
        r@ == sha256_of(data@),
        r@.len() == 32,
{
    let mut hasher = <sha2::Sha256 as sha2::Digest>::new();
    sha2::Digest::update(&mut hasher, data);
    sha2::Digest::finalize(hasher).to_vec()
}

/// The ASCII code of the lowercase hex digit for `n` (`n` below sixteen).
pub open spec fn hex_digit(n: u8) -> u8 {
    if n < 10 {
        (0x30 + n) as u8
    } else {
        (0x57 + n) as u8
    }
}

/// The lowercase hex rendering of `bytes`, as ASCII codes: two digits for
/// each byte, high nibble first.
pub open spec fn hex_ascii(bytes: Seq<u8>) -> Seq<u8>
    decreases bytes.len(),
{
    if bytes.len() == 0 {
        Seq::empty()
    } else {
        seq![hex_digit(bytes[0] / 16), hex_digit(bytes[0] % 16)] + hex_ascii(bytes.drop_first())
    }
}

/// The characters spelled by a sequence of ASCII codes.
pub open spec fn ascii_chars(bytes: Seq<u8>) -> Seq<char> {
    Seq::new(bytes.len(), |i: int| bytes[i] as char)
}

/// The truncated digest that every hash field in this crate holds: the
/// first sixteen hex characters of the SHA-256 digest of `data`.
pub open spec fn digest16_of(data: Seq<u8>) -> Seq<char> {
    ascii_chars(hex_ascii(sha256_of(data)).take(16))
}

proof fn lemma_hex_ascii_len(bytes: Seq<u8>)
    ensures
        hex_ascii(bytes).len() == 2 * bytes.len(),
    decreases bytes.len(),
{
    if bytes.len() > 0 {
        lemma_hex_ascii_len(bytes.drop_first());
    }
}

proof fn lemma_hex_ascii_take(bytes: Seq<u8>, n: int)
    requires
        0 <= n < bytes.len(),
    ensures
        hex_ascii(bytes.take(n + 1)) == hex_ascii(bytes.take(n)) + seq![
            hex_digit(bytes[n] / 16),
            hex_digit(bytes[n] % 16),
        ],
    decreases n,
{
    if n == 0 {
        assert(bytes.take(1).len() == 1);
        assert(bytes.take(1)[0] == bytes[0]);
        assert(hex_ascii(bytes.take(1).drop_first()) == Seq::<u8>::empty()) by {
            assert(bytes.take(1).drop_first() =~= Seq::<u8>::empty());
        }
        assert(bytes.take(0).len() == 0);
        assert(hex_ascii(bytes.take(0)) == Seq::<u8>::empty());
        assert(hex_ascii(bytes.take(1)) =~= hex_ascii(bytes.take(0)) + seq![
            hex_digit(bytes[0] / 16),
            hex_digit(bytes[0] % 16),
        ]);
    } else {
        let tail = bytes.drop_first();
        lemma_hex_ascii_take(tail, n - 1);
        assert(bytes.take(n + 1).drop_first() =~= tail.take(n));
        assert(bytes.take(n).drop_first() =~= tail.take(n - 1));
        assert(bytes.take(n + 1)[0] == bytes[0]);
        assert(bytes.take(n)[0] == bytes[0]);
        assert(tail[n - 1] == bytes[n]);
        assert(hex_ascii(bytes.take(n + 1)) =~= hex_ascii(bytes.take(n)) + seq![
            hex_digit(bytes[n] / 16),
            hex_digit(bytes[n] % 16),
        ]);
    }
}

/// Renders `data` as lowercase hex, two ASCII digits for each byte.
fn hex_encode(data: &[u8]) -> (r: Vec<u8>)
    ensures
        r@ == hex_ascii(data@),
        r@.len() == 2 * data@.len(),
        forall|i: int| 0 <= i < r@.len() ==> r@[i] < 0x80,
{
    let mut out: Vec<u8> = Vec::new();
    let n = data.len();
    proof {
        assert(data@.take(0) =~= Seq::<u8>::empty());
    }
    for i in 0..n
        invariant
            n == data@.len(),
            out@ == hex_ascii(data@.take(i as int)),
            out@.len() == 2 * i,
            forall|k: int| 0 <= k < out@.len() ==> out@[k] < 0x80,
    {
        let b = data[i];
        out.push(hex_digit_of(b / 16));
        out.push(hex_digit_of(b % 16));
        proof {
            lemma_hex_ascii_take(data@, i as int);
            assert(out@ =~= hex_ascii(data@.take(i + 1)));
        }
    }
    proof {
        assert(data@.take(n as int) =~= data@);
        lemma_hex_ascii_len(data@);
    }
    out
}

/// The lowercase hex digit for `n`, as its ASCII code.
fn hex_digit_of(n: u8) -> (r: u8)
    requires
        n < 16,
    ensures
        r == hex_digit(n),
        r < 0x80,
{
    if n < 10 {
        0x30 + n
    } else {
        0x57 + n
    }
}

/// Relies on String::from_utf8: bytes below 0x80 are valid UTF-8 and decode
/// to the characters with the same code points.
#[verifier::external_body]
fn ascii_string(bytes: Vec<u8>) -> (r: String)
    requires
        forall|i: int| 0 <= i < bytes@.len() ==> bytes@[i] < 0x80,
    ensures
        r@ == ascii_chars(bytes@),
{
    match String::from_utf8(bytes) {
        Ok(s) => s,
        Err(_) => String::new(),
    }
}

/// The truncated digest used throughout the kernel: the first sixteen hex
/// characters of the SHA-256 digest of `data`.
pub fn digest16(data: &[u8]) -> (r: String)
    ensures
        r@ == digest16_of(data@),
        r@.len() == 16,
{
    let full = sha256(data);
    let hex = hex_encode(full.as_slice());
    let head = slice_subrange(hex.as_slice(), 0, 16);
    let owned = slice_to_vec(head);
    proof {
        assert(owned@ =~= hex_ascii(sha256_of(data@)).take(16));
        assert(ascii_chars(owned@) =~= digest16_of(data@));
    }
    ascii_string(owned)
}

} // verus!
