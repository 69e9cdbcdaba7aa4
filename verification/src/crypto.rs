//! The cryptographic primitives, each behind the name of the function that it
//! computes. What the library states of them is what their definitions give: a
//! digest is a function of the data, and an opened message is what was sealed.
use ring::{aead, digest, hkdf, hmac};
use subtle::ConstantTimeEq;
use vstd::prelude::*;

verus! {

/// SHA-256.
pub uninterp spec fn sha256_of(data: Seq<u8>) -> Seq<u8>;

/// HKDF with HMAC-SHA-256, extract and expand, for thirty-two bytes.
pub uninterp spec fn hkdf_sha256_of(salt: Seq<u8>, secret: Seq<u8>, label: Seq<u8>) -> Seq<u8>;

/// HMAC-SHA-256.
pub uninterp spec fn hmac_sha256_of(key: Seq<u8>, data: Seq<u8>) -> Seq<u8>;

/// ChaCha20-Poly1305 encryption: the ciphertext with the tag behind it.
pub uninterp spec fn aead_sealed(
    key: Seq<u8>,
    nonce: Seq<u8>,
    associated: Seq<u8>,
    data: Seq<u8>,
) -> Seq<u8>;

/// ChaCha20-Poly1305 decryption: the data, where the tag is right.
pub uninterp spec fn aead_opened(
    key: Seq<u8>,
    nonce: Seq<u8>,
    associated: Seq<u8>,
    sealed: Seq<u8>,
) -> Option<Seq<u8>>;

/// The longest message that ChaCha20-Poly1305 takes, in bytes.
pub const MAX_SEALED: u64 = 274_877_906_880;

/// `ring::digest::digest` with SHA-256: thirty-two bytes, a function of the data.
#[verifier::external_body]
pub(crate) fn sha256(data: &[u8]) -> (r: Vec<u8>)
    ensures
        r@ == sha256_of(data@),
        r@.len() == 32,
{
    digest::digest(&digest::SHA256, data).as_ref().to_vec()
}

/// `ring::hkdf` with HMAC-SHA-256: extraction with `salt`, then expansion under
/// `label` to the length of the digest. Expansion fails only for outputs longer
/// than 255 digests, so it does not fail here.
#[verifier::external_body]
pub(crate) fn hkdf_sha256(salt: &[u8], secret: &[u8], label: &[u8]) -> (r: Option<Vec<u8>>)
    ensures
        r is Some,
        r->0@ == hkdf_sha256_of(salt@, secret@, label@),
        r->0@.len() == 32,
{
    let prk = hkdf::Salt::new(hkdf::HKDF_SHA256, salt).extract(secret);
    let mut key = vec![0; 32];
    prk.expand(&[label], hkdf::HKDF_SHA256).ok()?.fill(&mut key).ok()?;
    Some(key)
}

/// `ring::hmac::sign` with SHA-256: thirty-two bytes, a function of key and data.
#[verifier::external_body]
pub(crate) fn hmac_sha256(key: &[u8], data: &[u8]) -> (r: Vec<u8>)
    ensures
        r@ == hmac_sha256_of(key@, data@),
        r@.len() == 32,
{
    hmac::sign(&hmac::Key::new(hmac::HMAC_SHA256, key), data).as_ref().to_vec()
}

/// `ring::hmac::verify` with SHA-256: whether `tag` is the authentication code of
/// the data.
#[verifier::external_body]
pub(crate) fn hmac_sha256_verify(key: &[u8], data: &[u8], tag: &[u8]) -> (r: bool)
    ensures
        r == (tag@ == hmac_sha256_of(key@, data@)),
{
    hmac::verify(&hmac::Key::new(hmac::HMAC_SHA256, key), data, tag).is_ok()
}

/// `ring::aead::LessSafeKey::seal_in_place_append_tag` with ChaCha20-Poly1305.
/// It fails only on messages over the cipher's limit; what it produces is sixteen
/// bytes longer than the data, and opens to the data.
#[verifier::external_body]
pub(crate) fn aead_seal(key: &[u8], nonce: &[u8], associated: &[u8], data: &[u8]) -> (r: Option<
    Vec<u8>,
>)
    requires
        key@.len() == 32,
        nonce@.len() == 12,
    ensures
        r is Some <==> data@.len() <= MAX_SEALED,
        r matches Some(sealed) ==> {
            &&& sealed@ == aead_sealed(key@, nonce@, associated@, data@)
            &&& sealed@.len() == data@.len() + 16
            &&& aead_opened(key@, nonce@, associated@, sealed@) == Some(data@)
        },
{
    let key = aead::UnboundKey::new(&aead::CHACHA20_POLY1305, key).ok()?;
    let nonce = aead::Nonce::try_assume_unique_for_key(nonce).ok()?;
    let mut sealed = data.to_vec();
    aead::LessSafeKey::new(key)
        .seal_in_place_append_tag(nonce, aead::Aad::from(associated), &mut sealed)
        .ok()?;
    Some(sealed)
}

/// `ring::aead::LessSafeKey::open_in_place` with ChaCha20-Poly1305: what it gives
/// out is shorter by the tag, and sealing it again gives the same message.
#[verifier::external_body]
pub(crate) fn aead_open(key: &[u8], nonce: &[u8], associated: &[u8], sealed: &[u8]) -> (r: Option<
    Vec<u8>,
>)
    requires
        key@.len() == 32,
        nonce@.len() == 12,
    ensures
        r is Some <==> aead_opened(key@, nonce@, associated@, sealed@) is Some,
        r matches Some(data) ==> {
            &&& aead_opened(key@, nonce@, associated@, sealed@) == Some(data@)
            &&& data@.len() + 16 == sealed@.len()
            &&& aead_sealed(key@, nonce@, associated@, data@) == sealed@
        },
{
    let key = aead::UnboundKey::new(&aead::CHACHA20_POLY1305, key).ok()?;
    let nonce = aead::Nonce::try_assume_unique_for_key(nonce).ok()?;
    let mut data = sealed.to_vec();
    let opened = aead::LessSafeKey::new(key)
        .open_in_place(nonce, aead::Aad::from(associated), &mut data)
        .ok()?;
    Some(opened.to_vec())
}

/// `subtle::ConstantTimeEq::ct_eq` on byte slices: equality, in a time that does
/// not depend on where two slices of one length differ.
#[verifier::external_body]
pub(crate) fn constant_time_eq(a: &[u8], b: &[u8]) -> (r: bool)
    ensures
        r == (a@ == b@),
{
    bool::from(a.ct_eq(b))
}

/// `rand::random` for a nonce. It depends on chance: nothing is promised.
#[verifier::external_body]
pub(crate) fn random_nonce() -> [u8; 12] {
    rand::random()
}

/// `rand::random` for thirty-two bytes. It depends on chance: nothing is promised.
#[verifier::external_body]
pub(crate) fn random_32() -> [u8; 32] {
    rand::random()
}

/// `rand::random` for a number. It depends on chance: nothing is promised.
#[verifier::external_body]
pub(crate) fn random_u64() -> u64 {
    rand::random()
}

/// `rand::random` for a long number. It depends on chance: nothing is promised.
#[verifier::external_body]
pub(crate) fn random_u128() -> u128 {
    rand::random()
}

/// `rand::random_range` below `limit`. Which number comes depends on chance.
#[verifier::external_body]
pub(crate) fn random_below(limit: u32) -> (r: u32)
    requires
        limit > 0,
    ensures
        r < limit,
{
    rand::random_range(0..limit)
}

} // verus!
