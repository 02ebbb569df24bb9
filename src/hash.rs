//! Content fingerprints of diff text, used to detect repository drift.
use vstd::prelude::*;
use vstd::utf8::encode_utf8;
use sha2::Digest;

verus! {

/// The SHA-256 digest of a byte sequence.
pub uninterp spec fn sha256_of(data: Seq<u8>) -> Seq<u8>;

/// Relies on sha2's `Sha256::digest`: the SHA-256 digest of `data`, whose
/// output size is 32 bytes.
#[verifier::external_body]
fn sha256(data: &[u8]) -> (r: Vec<u8>)
    ensures
        r@ == sha256_of(data@),
        r@.len() == 32,
{
    sha2::Sha256::digest(data).to_vec()
}

/// Lowercase hexadecimal digit of a value below 16.
pub open spec fn hex_digit(n: u8) -> char {
    if n == 0 { '0' } else if n == 1 { '1' } else if n == 2 { '2' } else if n == 3 { '3' }
    else if n == 4 { '4' } else if n == 5 { '5' } else if n == 6 { '6' } else if n == 7 { '7' }
    else if n == 8 { '8' } else if n == 9 { '9' } else if n == 10 { 'a' } else if n == 11 { 'b' }
    else if n == 12 { 'c' } else if n == 13 { 'd' } else if n == 14 { 'e' } else { 'f' }
}

/// Two lowercase hexadecimal digits per byte, high nibble first.
pub open spec fn hex_of(bytes: Seq<u8>) -> Seq<char>
    decreases bytes.len(),
{
    if bytes.len() == 0 {
        Seq::empty()
    } else {
        let b = bytes.last();
        hex_of(bytes.drop_last()) + seq![hex_digit(b / 16), hex_digit(b % 16)]
    }
}

/// Relies on `hex::encode`: each byte becomes its two lowercase hexadecimal
/// digits, high nibble first.
#[verifier::external_body]
fn hex_encode(bytes: &[u8]) -> (r: String)
    ensures
        r@ == hex_of(bytes@),
{
    hex::encode(bytes)
}

/// The scheme tag that starts every token.
pub open spec fn scheme_tag() -> Seq<char> {
    "sha256:"@
}

/// The token of a text: the scheme tag, then the hex digest of its UTF-8 bytes.
pub open spec fn fingerprint_of(text: Seq<char>) -> Seq<char> {
    scheme_tag() + hex_of(sha256_of(encode_utf8(text)))
}

/// The fingerprint of `diff`, as `sha256:<hex>`.
pub fn diff_hash(diff: &str) -> (r: String)
    ensures
        r@ == fingerprint_of(diff@),
        r@.len() == 71,
{
    let digest = sha256(diff.as_bytes());
    let hex = hex_encode(digest.as_slice());
    let mut r = String::from_str("sha256:");
    r.append(hex.as_str());
    proof {
        reveal_strlit("sha256:");
        lemma_hex_len(digest@);
    }
    r
}

pub proof fn lemma_hex_len(bytes: Seq<u8>)
    ensures
        hex_of(bytes).len() == 2 * bytes.len(),
    decreases bytes.len(),
{
    if bytes.len() > 0 {
        lemma_hex_len(bytes.drop_last());
    }
}

proof fn lemma_hex_injective(a: Seq<u8>, b: Seq<u8>)
    requires
        hex_of(a) == hex_of(b),
    ensures
        a == b,
    decreases a.len(),
{
    lemma_hex_len(a);
    lemma_hex_len(b);
    if a.len() > 0 {
        let ha = hex_of(a.drop_last());
        let hb = hex_of(b.drop_last());
        lemma_hex_len(a.drop_last());
        lemma_hex_len(b.drop_last());
        let n = hex_of(a).len();
        assert(hex_of(a)[n - 2] == hex_digit(a.last() / 16));
        assert(hex_of(b)[n - 2] == hex_digit(b.last() / 16));
        assert(hex_of(a)[n - 1] == hex_digit(a.last() % 16));
        assert(hex_of(b)[n - 1] == hex_digit(b.last() % 16));
        assert(a.last() == b.last()) by (nonlinear_arith)
            requires
                hex_digit(a.last() / 16) == hex_digit(b.last() / 16),
                hex_digit(a.last() % 16) == hex_digit(b.last() % 16),
        {
        }
        assert(ha =~= hex_of(a).take(n - 2));
        assert(hb =~= hex_of(b).take(n - 2));
        lemma_hex_injective(a.drop_last(), b.drop_last());
        assert(a =~= a.drop_last().push(a.last()));
        assert(b =~= b.drop_last().push(b.last()));
    }
}

/// Fingerprints are a function of the text: equal texts give equal tokens,
/// and two texts share a token exactly when their UTF-8 bytes share a
/// SHA-256 digest.
pub proof fn lemma_fingerprint_deterministic(a: Seq<char>, b: Seq<char>)
    ensures
        a == b ==> fingerprint_of(a) == fingerprint_of(b),
        fingerprint_of(a) == fingerprint_of(b) <==> sha256_of(encode_utf8(a)) == sha256_of(
            encode_utf8(b),
        ),
{
    if fingerprint_of(a) == fingerprint_of(b) {
        let ta = scheme_tag();
        assert(hex_of(sha256_of(encode_utf8(a))) =~= fingerprint_of(a).skip(ta.len() as int));
        assert(hex_of(sha256_of(encode_utf8(b))) =~= fingerprint_of(b).skip(ta.len() as int));
        lemma_hex_injective(sha256_of(encode_utf8(a)), sha256_of(encode_utf8(b)));
    }
}

} // verus!
