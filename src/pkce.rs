//! Proof Key for Code Exchange: a fresh verifier and its S256 challenge for
//! each authorization attempt.

use vstd::prelude::*;
use vstd::utf8::encode_utf8;
use base64::Engine;
use sha2::Digest;

verus! {

/// How many random bytes a verifier encodes.
pub const VERIFIER_BYTES: usize = 32;

/// The URL-safe base64 alphabet, indexed by six-bit value.
pub open spec fn base64url_alphabet() -> Seq<char> {
    seq![
        'A', 'B', 'C', 'D', 'E', 'F', 'G', 'H', 'I', 'J', 'K', 'L', 'M', 'N', 'O', 'P',
        'Q', 'R', 'S', 'T', 'U', 'V', 'W', 'X', 'Y', 'Z', 'a', 'b', 'c', 'd', 'e', 'f',
        'g', 'h', 'i', 'j', 'k', 'l', 'm', 'n', 'o', 'p', 'q', 'r', 's', 't', 'u', 'v',
        'w', 'x', 'y', 'z', '0', '1', '2', '3', '4', '5', '6', '7', '8', '9', '-', '_',
    ]
}

/// The URL-safe base64 text, without padding, of `bytes`: each group of
/// three bytes becomes four characters of six bits each, most significant
/// first; a final one or two bytes become two or three characters, with
/// zero bits filling the last.
pub open spec fn base64url_of(bytes: Seq<u8>) -> Seq<char>
    decreases bytes.len(),
{
    let a = base64url_alphabet();
    if bytes.len() == 0 {
        Seq::<char>::empty()
    } else if bytes.len() == 1 {
        let b0 = bytes[0] as int;
        seq![a[b0 / 4], a[(b0 % 4) * 16]]
    } else if bytes.len() == 2 {
        let (b0, b1) = (bytes[0] as int, bytes[1] as int);
        seq![a[b0 / 4], a[(b0 % 4) * 16 + b1 / 16], a[(b1 % 16) * 4]]
    } else {
        let (b0, b1, b2) = (bytes[0] as int, bytes[1] as int, bytes[2] as int);
        seq![a[b0 / 4], a[(b0 % 4) * 16 + b1 / 16], a[(b1 % 16) * 4 + b2 / 64], a[b2 % 64]]
            + base64url_of(bytes.subrange(3, bytes.len() as int))
    }
}

/// The SHA-256 digest of `bytes`.
pub uninterp spec fn sha256_of(bytes: Seq<u8>) -> Seq<u8>;

/// The length of unpadded base64 text for `n` bytes: four characters per
/// whole three-byte chunk, then two or three for a remainder of one or two.
pub open spec fn base64_unpadded_len(n: nat) -> nat {
    (n / 3) * 4 + if n % 3 == 1 {
        2nat
    } else if n % 3 == 2 {
        3nat
    } else {
        0nat
    }
}

/// The URL-safe base64 alphabet: ASCII letters, digits, `-` and `_`.
pub open spec fn is_base64url_char(c: char) -> bool {
    ||| 65 <= c as int <= 90
    ||| 97 <= c as int <= 122
    ||| 48 <= c as int <= 57
    ||| c == '-'
    ||| c == '_'
}

pub open spec fn is_base64url_text(s: Seq<char>) -> bool {
    forall|i: int| 0 <= i < s.len() ==> is_base64url_char(#[trigger] s[i])
}

/// Unpadded base64url text has the length `base64_unpadded_len` gives, in
/// the URL-safe alphabet.
pub proof fn lemma_base64url_shape(bytes: Seq<u8>)
    ensures
        base64url_of(bytes).len() == base64_unpadded_len(bytes.len()),
        is_base64url_text(base64url_of(bytes)),
    decreases bytes.len(),
{
    let a = base64url_alphabet();
    assert forall|k: int| 0 <= k < 64 implies is_base64url_char(#[trigger] a[k]) by {
        if k < 26 { } else if k < 52 { } else if k < 62 { } else { }
    }
    if bytes.len() >= 3 {
        let rest = bytes.subrange(3, bytes.len() as int);
        lemma_base64url_shape(rest);
        let (b0, b1, b2) = (bytes[0] as int, bytes[1] as int, bytes[2] as int);
        assert(0 <= (b0 % 4) * 16 + b1 / 16 < 64);
        assert(0 <= (b1 % 16) * 4 + b2 / 64 < 64);
        let head = seq![a[b0 / 4], a[(b0 % 4) * 16 + b1 / 16], a[(b1 % 16) * 4 + b2 / 64], a[b2 % 64]];
        assert(base64url_of(bytes) == head + base64url_of(rest));
        assert(is_base64url_text(head));
        assert forall|i: int| 0 <= i < base64url_of(bytes).len() implies is_base64url_char(
            #[trigger] base64url_of(bytes)[i],
        ) by {
            if i >= 4 {
                assert(base64url_of(bytes)[i] == base64url_of(rest)[i - 4]);
            }
        }
        assert((bytes.len() as nat) / 3 == (rest.len() as nat) / 3 + 1);
        assert((bytes.len() as nat) % 3 == (rest.len() as nat) % 3);
    } else if bytes.len() == 2 {
        let (b0, b1) = (bytes[0] as int, bytes[1] as int);
        assert(0 <= (b0 % 4) * 16 + b1 / 16 < 64);
        assert(0 <= (b1 % 16) * 4 < 64);
    } else if bytes.len() == 1 {
        let b0 = bytes[0] as int;
        assert(0 <= (b0 % 4) * 16 < 64);
    }
}

/// Relies on `rand::thread_rng` and `Rng::fill`: `n` bytes drawn from the
/// thread's cryptographically secure generator.
#[verifier::external_body]
fn random_bytes(n: usize) -> (r: Vec<u8>)
    ensures
        r@.len() == n,
{
    let mut bytes = vec![0u8; n];
    rand::Rng::fill(&mut rand::thread_rng(), &mut bytes[..]);
    bytes
}

/// Relies on base64's `URL_SAFE_NO_PAD.encode`: the URL-safe alphabet,
/// with no `=` padding, so its length is `encoded_len(n, false)`.
#[verifier::external_body]
fn base64url_encode(bytes: &[u8]) -> (r: String)
    ensures
        r@ == base64url_of(bytes@),
{
    base64::engine::general_purpose::URL_SAFE_NO_PAD.encode(bytes)
}

/// Relies on sha2's `Sha256::digest`: the 32-byte digest of `bytes`.
#[verifier::external_body]
fn sha256(bytes: &[u8]) -> (r: Vec<u8>)
    ensures
        r@ == sha256_of(bytes@),
        r@.len() == 32,
{
    sha2::Sha256::digest(bytes).to_vec()
}

/// The S256 challenge of a verifier: the base64url text of the SHA-256
/// digest of the verifier's UTF-8 bytes.
pub open spec fn challenge_of(verifier: Seq<char>) -> Seq<char> {
    base64url_of(sha256_of(encode_utf8(verifier)))
}

/// The verifier and challenge that a given run of random bytes yields.
/// The challenge encodes a 32-byte digest: 43 URL-safe characters.
pub fn pkce_from_bytes(random: &[u8]) -> (r: (String, String))
    ensures
        r.0@ == base64url_of(random@),
        r.0@.len() == base64_unpadded_len(random@.len()),
        is_base64url_text(r.0@),
        r.1@ == challenge_of(r.0@),
        sha256_of(encode_utf8(r.0@)).len() == 32,
        r.1@.len() == 43,
        is_base64url_text(r.1@),
{
    let verifier = base64url_encode(random);
    let digest = sha256(verifier.as_str().as_bytes());
    let challenge = base64url_encode(digest.as_slice());
    proof {
        lemma_base64url_shape(random@);
        lemma_base64url_shape(digest@);
    }
    (verifier, challenge)
}

/// A fresh verifier, from 32 random bytes, and its challenge: each is 43
/// URL-safe characters with no padding.
pub fn generate_pkce() -> (r: (String, String))
    ensures
        exists|b: Seq<u8>| b.len() == VERIFIER_BYTES && r.0@ == #[trigger] base64url_of(b),
        r.0@.len() == 43,
        is_base64url_text(r.0@),
        r.1@ == challenge_of(r.0@),
        sha256_of(encode_utf8(r.0@)).len() == 32,
        r.1@.len() == 43,
        is_base64url_text(r.1@),
{
    let random = random_bytes(VERIFIER_BYTES);
    pkce_from_bytes(random.as_slice())
}

} // verus!
