use vstd::prelude::*;

use openssl::bn::{BigNum, BigNumContext};
use openssl::ec::{EcGroup, EcKey, EcPoint, PointConversionForm};
use openssl::nid::Nid;

verus! {

/// The SHA-256 digest of a byte sequence; it depends on the input bytes
/// alone.
pub uninterp spec fn sha256_of(msg: Seq<u8>) -> Seq<u8>;

/// The HMAC-SHA256 of a message under a key; it depends on the key and
/// message bytes alone.
pub uninterp spec fn hmac_sha256_of(key: Seq<u8>, msg: Seq<u8>) -> Seq<u8>;

/// The 32-byte x-coordinate of the P-256 Diffie-Hellman shared point of a
/// private scalar and a peer's uncompressed public point; it depends on
/// the two inputs alone.
pub uninterp spec fn ecdh_x_of(scalar: Seq<u8>, peer_point: Seq<u8>) -> Seq<u8>;

/// The uncompressed encoding of the P-256 public point of a private
/// scalar; it depends on the scalar alone.
pub uninterp spec fn p256_point_of(scalar: Seq<u8>) -> Seq<u8>;

/// The AES-128-GCM sealed output for a key, nonce and plaintext: the
/// ciphertext followed by the 16-byte authentication tag; it depends on
/// the three inputs alone.
pub uninterp spec fn aes128gcm_of(key: Seq<u8>, nonce: Seq<u8>, plaintext: Seq<u8>) -> Seq<u8>;

/// The uncompressed public point of the P-256 private key that a
/// PEM-encoded ECPrivateKey carries; it depends on the PEM bytes alone.
pub uninterp spec fn pem_public_point_of(pem: Seq<u8>) -> Seq<u8>;

/// Whether ECDSA P-256 verification accepts a 64-byte `r || s` signature
/// over a digest under the public point of the private key that the PEM
/// bytes carry; it depends on the three inputs alone.
pub uninterp spec fn p256_verifies(pem: Seq<u8>, digest: Seq<u8>, sig: Seq<u8>) -> bool;

/// Relies on `openssl::sha::sha256`: the 32-byte SHA-256 digest of the
/// input, a function of the input alone.
#[verifier::external_body]
pub(crate) fn sha256(msg: &[u8]) -> (r: Vec<u8>)
    ensures
        r@ == sha256_of(msg@),
        r@.len() == 32,
{
    openssl::sha::sha256(msg).to_vec()
}

/// Relies on `openssl::pkey::PKey::hmac`, `openssl::sign::Signer::new`
/// with SHA-256 and `Signer::sign_oneshot_to_vec`: together they compute
/// the 32-byte HMAC-SHA256 of the message under the key, a function of key
/// and message alone. `PKey::hmac` asserts that the key fits a C `int`,
/// so a key that long is excluded here rather than left to panic.
#[verifier::external_body]
pub(crate) fn hmac_sha256(key: &[u8], msg: &[u8]) -> (r: Option<Vec<u8>>)
    requires
        key@.len() < 0x8000_0000,
    ensures
        r matches Some(v) ==> v@ == hmac_sha256_of(key@, msg@) && v@.len() == 32,
{
    let pkey = openssl::pkey::PKey::hmac(key).ok()?;
    let mut signer =
        openssl::sign::Signer::new(openssl::hash::MessageDigest::sha256(), &pkey).ok()?;
    signer.sign_oneshot_to_vec(msg).ok()
}

/// Relies on `openssl::ec` point arithmetic (`EcGroup::from_curve_name`,
/// `BigNum::from_slice`, `EcPoint::from_bytes`, `EcPointRef::mul2`,
/// `EcPointRef::affine_coordinates`) and `BigNumRef::to_vec_padded`: the
/// result is the 32-byte big-endian x-coordinate of scalar times the peer
/// point on P-256, a function of the two inputs alone; `None` when the
/// peer bytes are not a curve point or the product is the point at
/// infinity. `BigNum::from_slice` asserts its input fits a C `int`, so
/// the scalar is fixed to its 32-byte big-endian form here.
#[verifier::external_body]
pub(crate) fn p256_ecdh(scalar: &[u8], peer_point: &[u8]) -> (r: Option<Vec<u8>>)
    requires
        scalar@.len() == 32,
    ensures
        r matches Some(v) ==> v@ == ecdh_x_of(scalar@, peer_point@) && v@.len() == 32,
{
    let group = EcGroup::from_curve_name(Nid::X9_62_PRIME256V1).ok()?;
    let mut ctx = BigNumContext::new().ok()?;
    let n = BigNum::from_slice(scalar).ok()?;
    let peer = EcPoint::from_bytes(&group, peer_point, &mut ctx).ok()?;
    let mut shared = EcPoint::new(&group).ok()?;
    shared.mul2(&group, &peer, &n, &mut ctx).ok()?;
    let mut x = BigNum::new().ok()?;
    let mut y = BigNum::new().ok()?;
    shared.affine_coordinates(&group, &mut x, &mut y, &mut ctx).ok()?;
    x.to_vec_padded(32).ok()
}

/// Relies on `openssl::ec::EcPointRef::mul_generator2` and
/// `EcPointRef::to_bytes` in uncompressed form: the result encodes scalar
/// times the P-256 generator, a function of the scalar alone (the
/// uncompressed form is `0x04` followed by the two coordinates; the point
/// at infinity encodes as a single zero byte). `BigNum::from_slice`
/// asserts its input fits a C `int`, so the scalar is fixed to its
/// 32-byte big-endian form here.
#[verifier::external_body]
pub(crate) fn p256_public_point(scalar: &[u8]) -> (r: Option<Vec<u8>>)
    requires
        scalar@.len() == 32,
    ensures
        r matches Some(v) ==> v@ == p256_point_of(scalar@),
{
    let group = EcGroup::from_curve_name(Nid::X9_62_PRIME256V1).ok()?;
    let mut ctx = BigNumContext::new().ok()?;
    let n = BigNum::from_slice(scalar).ok()?;
    let mut pt = EcPoint::new(&group).ok()?;
    pt.mul_generator2(&group, &n, &mut ctx).ok()?;
    pt.to_bytes(&group, PointConversionForm::UNCOMPRESSED, &mut ctx).ok()
}

/// Relies on `EcKey::generate` on the P-256 group and
/// `BigNumRef::to_vec_padded`: a freshly drawn private scalar, returned as
/// exactly 32 big-endian bytes. The scalar is random: nothing relates two
/// calls.
#[verifier::external_body]
pub(crate) fn gen_p256_scalar() -> (r: Option<Vec<u8>>)
    ensures
        r matches Some(v) ==> v@.len() == 32,
{
    let group = EcGroup::from_curve_name(Nid::X9_62_PRIME256V1).ok()?;
    let key = EcKey::generate(&group).ok()?;
    key.private_key().to_vec_padded(32).ok()
}

/// Relies on `openssl::rand::rand_bytes`: 16 freshly drawn random bytes.
/// The bytes are random: nothing relates two calls.
#[verifier::external_body]
pub(crate) fn gen_salt16() -> (r: Option<Vec<u8>>)
    ensures
        r matches Some(v) ==> v@.len() == 16,
{
    let mut buf = vec![0u8; 16];
    openssl::rand::rand_bytes(&mut buf).ok()?;
    Some(buf)
}

/// Relies on `openssl::symm::encrypt_aead` with `Cipher::aes_128_gcm` and
/// no additional authenticated data: GCM ciphertext is as long as the
/// plaintext and the call fills a 16-byte tag, appended here, so the
/// sealed output is a function of key, nonce and plaintext alone.
#[verifier::external_body]
pub(crate) fn aes128gcm_seal(key: &[u8], nonce: &[u8], plaintext: &[u8]) -> (r: Option<Vec<u8>>)
    requires
        key@.len() == 16,
        nonce@.len() == 12,
        plaintext@.len() < 0x8000_0000,
    ensures
        r matches Some(v) ==> v@ == aes128gcm_of(key@, nonce@, plaintext@) && v@.len()
            == plaintext@.len() + 16,
{
    let mut tag = [0u8; 16];
    let cipher = openssl::symm::Cipher::aes_128_gcm();
    let mut out =
        openssl::symm::encrypt_aead(cipher, key, Some(nonce), &[], plaintext, &mut tag).ok()?;
    out.extend_from_slice(&tag);
    Some(out)
}

/// Relies on `EcKey::generate` on the P-256 group,
/// `EcKey::private_key_to_pem` and `EcKey::public_key_to_der`: a freshly
/// generated keypair as its two persisted artifacts, the PEM-encoded
/// private key and the DER SubjectPublicKeyInfo. The pair is random, so
/// nothing relates two calls; but both encoders serialize the very same
/// key, so the SubjectPublicKeyInfo carries exactly the public point of
/// the private key the PEM carries (P-256 with the default uncompressed
/// form gives the fixed 91-byte encoding that `spki_point_of` accepts).
#[verifier::external_body]
pub(crate) fn gen_p256_keypair() -> (r: Option<(Vec<u8>, Vec<u8>)>)
    ensures
        r matches Some(p) ==> crate::spki::spki_point_of(p.1@) == Some(pem_public_point_of(p.0@)),
{
    let group = EcGroup::from_curve_name(Nid::X9_62_PRIME256V1).ok()?;
    let key = EcKey::generate(&group).ok()?;
    let pem = key.private_key_to_pem().ok()?;
    let der = key.public_key_to_der().ok()?;
    Some((pem, der))
}

/// Relies on `EcKey::private_key_from_pem`,
/// `openssl::ecdsa::EcdsaSig::sign` and `BigNumRef::to_vec_padded`: an
/// ECDSA P-256 signature over the given digest, as the two 32-byte
/// big-endian components `r` and `s` (each is reduced modulo the group
/// order, so it fits). The signature draws a random nonce, so nothing
/// relates two calls; but whatever signature comes back was produced by
/// `ECDSA_do_sign` under this key and digest, and so passes
/// `ECDSA_do_verify` for them. The PEM reader's memory BIO and
/// `EcdsaSig::sign` assert their inputs fit a C `int`, so both arguments
/// are bounded here rather than left to panic.
#[verifier::external_body]
pub(crate) fn ecdsa_p256_sign_raw(private_pem: &[u8], digest: &[u8]) -> (r: Option<(Vec<u8>, Vec<u8>)>)
    requires
        private_pem@.len() < 0x8000_0000,
        digest@.len() == 32,
    ensures
        r matches Some(v) ==> v.0@.len() == 32 && v.1@.len() == 32,
        r matches Some(v) ==> p256_verifies(private_pem@, digest@, v.0@ + v.1@),
{
    let key = EcKey::private_key_from_pem(private_pem).ok()?;
    let sig = openssl::ecdsa::EcdsaSig::sign(digest, &key).ok()?;
    let rv = sig.r().to_vec_padded(32).ok()?;
    let sv = sig.s().to_vec_padded(32).ok()?;
    Some((rv, sv))
}

} // verus!
