use vstd::prelude::*;

use crate::PushError;
use crate::push_all;
use crate::crypto::{
    aes128gcm_of, aes128gcm_seal, ecdh_x_of, gen_p256_scalar, gen_salt16, hmac_sha256,
    hmac_sha256_of, p256_ecdh, p256_point_of, p256_public_point,
};

verus! {

/// The largest plaintext the push message encoding accepts: a 4096-byte
/// record leaves this many bytes once the 86-byte content-coding header,
/// the padding delimiter and the 16-byte tag are taken out.
pub const MAX_PLAINTEXT_LEN: usize = 3993;

/// The key-derivation prefix `WebPush: info` followed by a zero byte; the
/// two public points complete it.
pub open spec fn key_info_prefix() -> Seq<u8> {
    seq![87u8, 101, 98, 80, 117, 115, 104, 58, 32, 105, 110, 102, 111, 0]
}

/// The one-block expand input for the content-encryption key:
/// `Content-Encoding: aes128gcm`, a zero byte, and the counter byte 1.
pub open spec fn cek_info_block() -> Seq<u8> {
    seq![
        67u8, 111, 110, 116, 101, 110, 116, 45, 69, 110, 99, 111, 100, 105, 110, 103, 58, 32, 97,
        101, 115, 49, 50, 56, 103, 99, 109, 0, 1,
    ]
}

/// The one-block expand input for the nonce: `Content-Encoding: nonce`, a
/// zero byte, and the counter byte 1.
pub open spec fn nonce_info_block() -> Seq<u8> {
    seq![
        67u8, 111, 110, 116, 101, 110, 116, 45, 69, 110, 99, 111, 100, 105, 110, 103, 58, 32, 110,
        111, 110, 99, 101, 0, 1,
    ]
}

/// The input-keying material of the push encryption scheme: the shared
/// secret is first mixed with the client's auth secret, then expanded
/// over both public points.
pub open spec fn ikm_of(auth: Seq<u8>, secret: Seq<u8>, client_pt: Seq<u8>, server_pt: Seq<u8>) -> Seq<u8> {
    hmac_sha256_of(
        hmac_sha256_of(auth, secret),
        key_info_prefix() + client_pt + server_pt + seq![1u8],
    )
}

/// The pseudorandom key drawn from the salt and the keying material.
pub open spec fn prk_of(salt: Seq<u8>, ikm: Seq<u8>) -> Seq<u8> {
    hmac_sha256_of(salt, ikm)
}

/// The 16-byte content-encryption key expanded from the pseudorandom key.
pub open spec fn cek_of(prk: Seq<u8>) -> Seq<u8> {
    hmac_sha256_of(prk, cek_info_block()).take(16)
}

/// The 12-byte nonce expanded from the pseudorandom key.
pub open spec fn nonce_of(prk: Seq<u8>) -> Seq<u8> {
    hmac_sha256_of(prk, nonce_info_block()).take(12)
}

/// The content-coding header that precedes the ciphertext: the 16-byte
/// salt, the record size 4096 big-endian, the key-id length 65 and the
/// ephemeral public point as key id.
pub open spec fn body_header_of(salt: Seq<u8>, server_pt: Seq<u8>) -> Seq<u8> {
    salt + seq![0u8, 0, 16, 0, 65] + server_pt
}

/// The whole encrypted message body as a function of the plaintext, the
/// client key material, the salt and the ephemeral scalar: header, then
/// the sealed record, whose plaintext carries the final-record padding
/// delimiter 2.
pub open spec fn encrypt_model(
    pt: Seq<u8>,
    client_pt: Seq<u8>,
    auth: Seq<u8>,
    salt: Seq<u8>,
    scalar: Seq<u8>,
) -> Seq<u8> {
    let server_pt = p256_point_of(scalar);
    let secret = ecdh_x_of(scalar, client_pt);
    let prk = prk_of(salt, ikm_of(auth, secret, client_pt, server_pt));
    body_header_of(salt, server_pt) + aes128gcm_of(cek_of(prk), nonce_of(prk), pt + seq![2u8])
}

/// The client-supplied key material has the shape the scheme demands: a
/// 65-byte uncompressed point and a 16-byte auth secret.
pub open spec fn client_material_wf(client_pt: Seq<u8>, auth: Seq<u8>) -> bool {
    client_pt.len() == 65 && client_pt[0] == 4 && auth.len() == 16
}

/// One encrypted push message: the salt and ephemeral public point the
/// recipient needs to derive the key, and the complete body that is sent
/// as the request payload (the header repeats the salt and point).
pub struct EncryptedMessage {
    pub salt: Vec<u8>,
    pub ephemeral_point: Vec<u8>,
    pub body: Vec<u8>,
}

fn key_info_prefix_bytes() -> (r: Vec<u8>)
    ensures
        r@ == key_info_prefix(),
{
    let mut v: Vec<u8> = Vec::new();
    v.push(87);
    v.push(101);
    v.push(98);
    v.push(80);
    v.push(117);
    v.push(115);
    v.push(104);
    v.push(58);
    v.push(32);
    v.push(105);
    v.push(110);
    v.push(102);
    v.push(111);
    v.push(0);
    assert(v@ =~= key_info_prefix());
    v
}

fn content_encoding_prefix_bytes() -> (r: Vec<u8>)
    ensures
        r@ == seq![
            67u8, 111, 110, 116, 101, 110, 116, 45, 69, 110, 99, 111, 100, 105, 110, 103, 58, 32,
        ],
{
    let mut v: Vec<u8> = Vec::new();
    v.push(67);
    v.push(111);
    v.push(110);
    v.push(116);
    v.push(101);
    v.push(110);
    v.push(116);
    v.push(45);
    v.push(69);
    v.push(110);
    v.push(99);
    v.push(111);
    v.push(100);
    v.push(105);
    v.push(110);
    v.push(103);
    v.push(58);
    v.push(32);
    assert(v@ =~= seq![
        67u8, 111, 110, 116, 101, 110, 116, 45, 69, 110, 99, 111, 100, 105, 110, 103, 58, 32,
    ]);
    v
}

fn cek_info_bytes() -> (r: Vec<u8>)
    ensures
        r@ == cek_info_block(),
{
    let mut v = content_encoding_prefix_bytes();
    v.push(97);
    v.push(101);
    v.push(115);
    v.push(49);
    v.push(50);
    v.push(56);
    v.push(103);
    v.push(99);
    v.push(109);
    v.push(0);
    v.push(1);
    assert(v@ =~= cek_info_block());
    v
}

fn nonce_info_bytes() -> (r: Vec<u8>)
    ensures
        r@ == nonce_info_block(),
{
    let mut v = content_encoding_prefix_bytes();
    v.push(110);
    v.push(111);
    v.push(110);
    v.push(99);
    v.push(101);
    v.push(0);
    v.push(1);
    assert(v@ =~= nonce_info_block());
    v
}

/// Encrypts a plaintext for one subscriber under a caller-fixed salt and
/// ephemeral scalar, so the output is a function of the arguments alone.
/// An over-long plaintext is refused before anything else; client key
/// material, auth secret, salt or scalar of the wrong shape (the
/// ephemeral scalar is 32 big-endian bytes) is refused next; a failure
/// of a crypto primitive (an off-curve client point included) is an
/// encryption error.
pub fn encrypt_with(
    plaintext: &[u8],
    client_point: &[u8],
    auth: &[u8],
    salt: &[u8],
    scalar: &[u8],
) -> (r: Result<EncryptedMessage, PushError>)
    ensures
        plaintext@.len() > MAX_PLAINTEXT_LEN <==> r == Err::<EncryptedMessage, PushError>(
            PushError::PayloadTooLarge,
        ),
        r matches Ok(m) ==> {
            &&& client_material_wf(client_point@, auth@)
            &&& salt@.len() == 16
            &&& scalar@.len() == 32
            &&& m.salt@ == salt@
            &&& m.ephemeral_point@ == p256_point_of(scalar@)
            &&& m.ephemeral_point@.len() == 65
            &&& m.body@ == encrypt_model(plaintext@, client_point@, auth@, salt@, scalar@)
        },
        plaintext@.len() <= MAX_PLAINTEXT_LEN && !(client_material_wf(client_point@, auth@)
            && salt@.len() == 16) ==> r == Err::<EncryptedMessage, PushError>(
            PushError::Encryption,
        ),
        r is Err ==> (r->Err_0 == PushError::PayloadTooLarge || r->Err_0
            == PushError::Encryption),
{
    if plaintext.len() > MAX_PLAINTEXT_LEN {
        return Err(PushError::PayloadTooLarge);
    }
    if !(client_point.len() == 65 && *vstd::slice::slice_index_get(client_point, 0) == 4
        && auth.len() == 16 && salt.len() == 16 && scalar.len() == 32) {
        return Err(PushError::Encryption);
    }
    let server_pt = match p256_public_point(scalar) {
        None => return Err(PushError::Encryption),
        Some(v) => v,
    };
    if server_pt.len() != 65 {
        return Err(PushError::Encryption);
    }
    let secret = match p256_ecdh(scalar, client_point) {
        None => return Err(PushError::Encryption),
        Some(v) => v,
    };
    let prk_key = match hmac_sha256(auth, secret.as_slice()) {
        None => return Err(PushError::Encryption),
        Some(v) => v,
    };
    let mut info = key_info_prefix_bytes();
    push_all(&mut info, client_point);
    push_all(&mut info, server_pt.as_slice());
    info.push(1);
    assert(info@ =~= key_info_prefix() + client_point@ + server_pt@ + seq![1u8]);
    let ikm = match hmac_sha256(prk_key.as_slice(), info.as_slice()) {
        None => return Err(PushError::Encryption),
        Some(v) => v,
    };
    let prk = match hmac_sha256(salt, ikm.as_slice()) {
        None => return Err(PushError::Encryption),
        Some(v) => v,
    };
    let cek_block = cek_info_bytes();
    let mut cek = match hmac_sha256(prk.as_slice(), cek_block.as_slice()) {
        None => return Err(PushError::Encryption),
        Some(v) => v,
    };
    cek.truncate(16);
    let nonce_block = nonce_info_bytes();
    let mut nonce = match hmac_sha256(prk.as_slice(), nonce_block.as_slice()) {
        None => return Err(PushError::Encryption),
        Some(v) => v,
    };
    nonce.truncate(12);
    let mut padded = vstd::slice::slice_to_vec(plaintext);
    padded.push(2);
    assert(padded@ =~= plaintext@ + seq![2u8]);
    let sealed = match aes128gcm_seal(cek.as_slice(), nonce.as_slice(), padded.as_slice()) {
        None => return Err(PushError::Encryption),
        Some(v) => v,
    };
    let mut body = vstd::slice::slice_to_vec(salt);
    body.push(0);
    body.push(0);
    body.push(16);
    body.push(0);
    body.push(65);
    push_all(&mut body, server_pt.as_slice());
    push_all(&mut body, sealed.as_slice());
    proof {
        assert(cek@ == cek_of(prk@));
        assert(nonce@ == nonce_of(prk@));
        assert(body@ =~= encrypt_model(plaintext@, client_point@, auth@, salt@, scalar@));
    }
    Ok(EncryptedMessage {
        salt: vstd::slice::slice_to_vec(salt),
        ephemeral_point: server_pt,
        body,
    })
}

/// Encrypts a plaintext for one subscriber with a freshly random salt and
/// ephemeral key, as production deliveries must.
pub fn encrypt(plaintext: &[u8], client_point: &[u8], auth: &[u8]) -> (r: Result<
    EncryptedMessage,
    PushError,
>)
    ensures
        plaintext@.len() > MAX_PLAINTEXT_LEN <==> r == Err::<EncryptedMessage, PushError>(
            PushError::PayloadTooLarge,
        ),
        r matches Ok(m) ==> {
            &&& client_material_wf(client_point@, auth@)
            &&& m.salt@.len() == 16
            &&& m.ephemeral_point@.len() == 65
            &&& exists|scalar: Seq<u8>|
                m.ephemeral_point@ == p256_point_of(scalar) && m.body@ == encrypt_model(
                    plaintext@,
                    client_point@,
                    auth@,
                    m.salt@,
                    scalar,
                )
        },
        plaintext@.len() <= MAX_PLAINTEXT_LEN && !client_material_wf(client_point@, auth@) ==> r
            == Err::<EncryptedMessage, PushError>(PushError::Encryption),
        r is Err ==> (r->Err_0 == PushError::PayloadTooLarge || r->Err_0
            == PushError::Encryption),
{
    if plaintext.len() > MAX_PLAINTEXT_LEN {
        return Err(PushError::PayloadTooLarge);
    }
    let salt = match gen_salt16() {
        None => return Err(PushError::Encryption),
        Some(v) => v,
    };
    let scalar = match gen_p256_scalar() {
        None => return Err(PushError::Encryption),
        Some(v) => v,
    };
    let r = encrypt_with(plaintext, client_point, auth, salt.as_slice(), scalar.as_slice());
    proof {
        if r is Ok {
            let m = r->Ok_0;
            assert(m.ephemeral_point@ == p256_point_of(scalar@) && m.body@ == encrypt_model(
                plaintext@,
                client_point@,
                auth@,
                m.salt@,
                scalar@,
            ));
        }
    }
    r
}

/// Under a fixed salt and ephemeral key the cipher is deterministic: any
/// two successful encryptions of the same plaintext under the same client
/// material, salt and scalar carry the same salt, ephemeral point and
/// body.
pub proof fn lemma_encrypt_with_deterministic(
    m1: EncryptedMessage,
    m2: EncryptedMessage,
    pt: Seq<u8>,
    client_pt: Seq<u8>,
    auth: Seq<u8>,
    salt: Seq<u8>,
    scalar: Seq<u8>,
)
    requires
        m1.salt@ == salt && m1.ephemeral_point@ == p256_point_of(scalar) && m1.body@
            == encrypt_model(pt, client_pt, auth, salt, scalar),
        m2.salt@ == salt && m2.ephemeral_point@ == p256_point_of(scalar) && m2.body@
            == encrypt_model(pt, client_pt, auth, salt, scalar),
    ensures
        m1.salt@ == m2.salt@,
        m1.ephemeral_point@ == m2.ephemeral_point@,
        m1.body@ == m2.body@,
{
}

} // verus!
