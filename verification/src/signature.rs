//! Webhook signatures: the keyed digest of a request body, written as text,
//! and the check of an asserted signature against it.

use crate::text::text_equal;
use vstd::prelude::*;
use vstd::string::*;
use vstd::utf8::*;

verus! {

/// The HMAC-SHA256 tag of `message` under `key`.
///
/// The tag is computed by the `hmac` and `sha2` crates; this library states
/// nothing of it but that it is a function of the key and the message.
pub uninterp spec fn hmac_sha256(key: Seq<u8>, message: Seq<u8>) -> Seq<u8>;

/// Computes an HMAC-SHA256 tag with `hmac::Mac::new_from_slice`,
/// `hmac::Mac::update` and `hmac::Mac::finalize` on `Hmac<Sha256>`.
///
/// Trusted: the result is the tag of `message` under `key`, and it has the
/// 32 bytes of a SHA-256 digest. HMAC takes a key of any length, so
/// `new_from_slice` never refuses one and a tag always comes back.
#[verifier::external_body]
fn compute_hmac_sha256(key: &[u8], message: &[u8]) -> (tag: Option<Vec<u8>>)
    ensures
        tag is Some,
        tag->0@ == hmac_sha256(key@, message@),
        tag->0@.len() == 32,
{
    match <hmac::Hmac<sha2::Sha256> as hmac::Mac>::new_from_slice(key) {
        Ok(mut mac) => {
            hmac::Mac::update(&mut mac, message);
            Some(hmac::Mac::finalize(mac).into_bytes().to_vec())
        },
        Err(_) => None,
    }
}

/// The sixteen lower-case hexadecimal digits, in order.
pub open spec fn hex_digits() -> Seq<char> {
    seq!['0', '1', '2', '3', '4', '5', '6', '7', '8', '9', 'a', 'b', 'c', 'd', 'e', 'f']
}

/// Lower-case hexadecimal: two digits for each byte, the high half first.
pub open spec fn hex_lower(bytes: Seq<u8>) -> Seq<char> {
    Seq::new(
        2 * bytes.len(),
        |i: int|
            if i % 2 == 0 {
                hex_digits()[bytes[i / 2] as int / 16]
            } else {
                hex_digits()[bytes[i / 2] as int % 16]
            },
    )
}

/// Writes bytes in hexadecimal with `hex::encode`.
///
/// Trusted: the result is the lower-case hexadecimal text of `bytes`, two
/// digits per byte with the high half first.
#[verifier::external_body]
fn hex_encode(bytes: &[u8]) -> (text: String)
    ensures
        text@ == hex_lower(bytes@),
{
    hex::encode(bytes)
}

/// The number of characters of every signature: the seven of the scheme
/// prefix and two for each of the 32 bytes of the tag.
pub const SIGNATURE_LENGTH: usize = 71;

/// The scheme that every signature names before its digest.
pub open spec fn signature_prefix() -> Seq<char> {
    "sha256="@
}

/// The signature that a holder of `secret` gives to `body`: the scheme
/// prefix, then the HMAC-SHA256 tag of the body under the secret's UTF-8
/// bytes, in lower-case hexadecimal.
pub open spec fn signature_text(secret: Seq<char>, body: Seq<u8>) -> Seq<char> {
    signature_prefix() + hex_lower(hmac_sha256(encode_utf8(secret), body))
}

/// Whether `asserted` is the signature of `body` under `secret`.
pub open spec fn signature_valid(secret: Seq<char>, body: Seq<u8>, asserted: Seq<char>) -> bool {
    asserted == signature_text(secret, body)
}

/// The signature of `body` under `secret`.
///
/// `None` would mean that the digest could not be keyed with the secret,
/// which does not happen.
pub fn expected_signature(secret: &str, body: &[u8]) -> (signature: Option<String>)
    ensures
        signature is Some,
        signature->0@ == signature_text(secret@, body@),
        signature->0@.len() == SIGNATURE_LENGTH,
{
    match compute_hmac_sha256(secret.as_bytes(), body) {
        Some(tag) => {
            let digest = hex_encode(tag.as_slice());
            let mut signature = String::from_str("sha256=");
            signature.append(digest.as_str());
            proof {
                reveal_strlit("sha256=");
            }
            Some(signature)
        },
        None => None,
    }
}

/// Checks an asserted signature against the raw body of a request.
///
/// The body is taken as it arrived, byte for byte. The comparison does not
/// stop at the first difference. Where no signature can be computed the check
/// fails: it never passes for want of one. No text of another length than
/// `SIGNATURE_LENGTH` passes.
pub fn verify_signature(secret: &str, body: &[u8], asserted: &str) -> (valid: bool)
    ensures
        valid == signature_valid(secret@, body@, asserted@),
        asserted@.len() != SIGNATURE_LENGTH ==> !valid,
{
    match expected_signature(secret, body) {
        Some(expected) => text_equal(asserted, expected.as_str()),
        None => false,
    }
}

/// Distinct positions of `hex_digits` hold distinct digits.
proof fn lemma_hex_digits_distinct(i: int, j: int)
    requires
        0 <= i < 16,
        0 <= j < 16,
        hex_digits()[i] == hex_digits()[j],
    ensures
        i == j,
{
}

/// Hexadecimal text determines the bytes that it was written from.
pub proof fn lemma_hex_lower_injective(a: Seq<u8>, b: Seq<u8>)
    requires
        hex_lower(a) == hex_lower(b),
    ensures
        a == b,
{
    assert(a.len() == b.len()) by {
        assert(hex_lower(a).len() == 2 * a.len());
        assert(hex_lower(b).len() == 2 * b.len());
    }
    assert forall|k: int| 0 <= k < a.len() implies a[k] == b[k] by {
        let x = a[k] as int;
        let y = b[k] as int;
        assert(hex_digits()[x / 16] == hex_digits()[y / 16]) by {
            assert(hex_lower(a)[2 * k] == hex_digits()[x / 16]);
            assert(hex_lower(b)[2 * k] == hex_digits()[y / 16]);
        }
        assert(hex_digits()[x % 16] == hex_digits()[y % 16]) by {
            assert(hex_lower(a)[2 * k + 1] == hex_digits()[x % 16]);
            assert(hex_lower(b)[2 * k + 1] == hex_digits()[y % 16]);
        }
        lemma_hex_digits_distinct(x / 16, y / 16);
        lemma_hex_digits_distinct(x % 16, y % 16);
    }
    assert(a =~= b);
}

/// The signature computed for a body under a secret verifies for that body
/// and that secret.
pub proof fn lemma_genuine_signature_verifies(secret: Seq<char>, body: Seq<u8>)
    ensures
        signature_valid(secret, body, signature_text(secret, body)),
{
}

/// A signature that differs in any way from the computed one, be it in a
/// single bit of a single character, does not verify.
pub proof fn lemma_altered_signature_fails(secret: Seq<char>, body: Seq<u8>, asserted: Seq<char>)
    requires
        asserted != signature_text(secret, body),
    ensures
        !signature_valid(secret, body, asserted),
{
}

/// A signature verifies for another body only if that body has the same tag
/// under the secret: whatever changes the tag makes the signature fail.
pub proof fn lemma_signature_binds_tag(secret: Seq<char>, body: Seq<u8>, other: Seq<u8>)
    requires
        hmac_sha256(encode_utf8(secret), other) != hmac_sha256(encode_utf8(secret), body),
    ensures
        !signature_valid(secret, other, signature_text(secret, body)),
{
    let key = encode_utf8(secret);
    if signature_valid(secret, other, signature_text(secret, body)) {
        let p = signature_prefix();
        let x = hex_lower(hmac_sha256(key, body));
        let y = hex_lower(hmac_sha256(key, other));
        assert(x =~= (p + x).subrange(p.len() as int, (p + x).len() as int));
        assert(y =~= (p + y).subrange(p.len() as int, (p + y).len() as int));
        lemma_hex_lower_injective(hmac_sha256(key, body), hmac_sha256(key, other));
    }
}

} // verus!
