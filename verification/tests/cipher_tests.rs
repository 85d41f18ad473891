use push_core::PushError;
use push_core::cipher::{MAX_PLAINTEXT_LEN, encrypt, encrypt_with};

fn p256_group() -> openssl::ec::EcGroup {
    openssl::ec::EcGroup::from_curve_name(openssl::nid::Nid::X9_62_PRIME256V1).unwrap()
}

/// A subscriber-side keypair: the private key and its 65-byte
/// uncompressed public point, as a browser would register it.
fn client_keypair() -> (openssl::ec::EcKey<openssl::pkey::Private>, Vec<u8>) {
    let group = p256_group();
    let key = openssl::ec::EcKey::generate(&group).unwrap();
    let mut ctx = openssl::bn::BigNumContext::new().unwrap();
    let point = key
        .public_key()
        .to_bytes(&group, openssl::ec::PointConversionForm::UNCOMPRESSED, &mut ctx)
        .unwrap();
    (key, point)
}

fn hmac(key: &[u8], msg: &[u8]) -> Vec<u8> {
    let pkey = openssl::pkey::PKey::hmac(key).unwrap();
    let mut signer =
        openssl::sign::Signer::new(openssl::hash::MessageDigest::sha256(), &pkey).unwrap();
    signer.sign_oneshot_to_vec(msg).unwrap()
}

/// Decrypts a push message body on the subscriber side, deriving the keys
/// as the aes128gcm scheme fixes them.
fn subscriber_decrypt(
    client_key: &openssl::ec::EcKey<openssl::pkey::Private>,
    client_point: &[u8],
    auth: &[u8],
    body: &[u8],
) -> Vec<u8> {
    let salt = &body[0..16];
    assert_eq!(&body[16..20], &[0, 0, 16, 0]);
    assert_eq!(body[20], 65);
    let server_point = &body[21..86];
    let sealed = &body[86..];

    let group = p256_group();
    let mut ctx = openssl::bn::BigNumContext::new().unwrap();
    let peer = openssl::ec::EcPoint::from_bytes(&group, server_point, &mut ctx).unwrap();
    let mut shared = openssl::ec::EcPoint::new(&group).unwrap();
    shared
        .mul2(&group, &peer, client_key.private_key(), &mut ctx)
        .unwrap();
    let mut x = openssl::bn::BigNum::new().unwrap();
    let mut y = openssl::bn::BigNum::new().unwrap();
    shared.affine_coordinates(&group, &mut x, &mut y, &mut ctx).unwrap();
    let secret = x.to_vec_padded(32).unwrap();

    let mut key_info = b"WebPush: info\0".to_vec();
    key_info.extend_from_slice(client_point);
    key_info.extend_from_slice(server_point);
    key_info.push(1);
    let ikm = hmac(&hmac(auth, &secret), &key_info);
    let prk = hmac(salt, &ikm);
    let cek = &hmac(&prk, b"Content-Encoding: aes128gcm\0\x01")[..16];
    let nonce = &hmac(&prk, b"Content-Encoding: nonce\0\x01")[..12];

    let (ct, tag) = sealed.split_at(sealed.len() - 16);
    let padded = openssl::symm::decrypt_aead(
        openssl::symm::Cipher::aes_128_gcm(),
        cek,
        Some(nonce),
        &[],
        ct,
        tag,
    )
    .unwrap();
    assert_eq!(*padded.last().unwrap(), 2, "final-record padding delimiter");
    padded[..padded.len() - 1].to_vec()
}

#[test]
fn subscriber_can_decrypt_what_encrypt_produces() {
    let (client_key, client_point) = client_keypair();
    let auth = vec![7u8; 16];
    let plaintext = b"a fresh cup of tea is waiting".to_vec();

    let m = encrypt(&plaintext, &client_point, &auth).unwrap();
    assert_eq!(m.salt.len(), 16);
    assert_eq!(m.ephemeral_point.len(), 65);
    assert_eq!(&m.body[0..16], &m.salt[..]);
    assert_eq!(&m.body[21..86], &m.ephemeral_point[..]);

    let recovered = subscriber_decrypt(&client_key, &client_point, &auth, &m.body);
    assert_eq!(recovered, plaintext);
}

#[test]
fn fixed_salt_and_ephemeral_key_make_encryption_deterministic() {
    let (_, client_point) = client_keypair();
    let auth = vec![9u8; 16];
    let salt = [5u8; 16];
    let scalar = [2u8; 32];
    let plaintext = b"same bytes in, same bytes out".to_vec();

    let m1 = encrypt_with(&plaintext, &client_point, &auth, &salt, &scalar).unwrap();
    let m2 = encrypt_with(&plaintext, &client_point, &auth, &salt, &scalar).unwrap();
    assert_eq!(m1.salt, m2.salt);
    assert_eq!(m1.ephemeral_point, m2.ephemeral_point);
    assert_eq!(m1.body, m2.body);
}

#[test]
fn changing_a_byte_of_the_client_material_changes_the_output() {
    let (_, client_point) = client_keypair();
    let auth = vec![9u8; 16];
    let salt = [5u8; 16];
    let scalar = [2u8; 32];
    let plaintext = b"same bytes in, same bytes out".to_vec();
    let m1 = encrypt_with(&plaintext, &client_point, &auth, &salt, &scalar).unwrap();

    let mut auth2 = auth.clone();
    auth2[3] ^= 1;
    let m2 = encrypt_with(&plaintext, &client_point, &auth2, &salt, &scalar).unwrap();
    assert_ne!(m1.body, m2.body);

    let mut point2 = client_point.clone();
    point2[10] ^= 1;
    match encrypt_with(&plaintext, &point2, &auth, &salt, &scalar) {
        // usually the flipped byte leaves the curve and is refused
        Err(e) => assert_eq!(e, PushError::Encryption),
        Ok(m3) => assert_ne!(m1.body, m3.body),
    }
}

#[test]
fn the_size_boundary_is_exact() {
    let (_, client_point) = client_keypair();
    let auth = vec![1u8; 16];

    let at_limit = vec![0u8; MAX_PLAINTEXT_LEN];
    let m = encrypt(&at_limit, &client_point, &auth).unwrap();
    // header 86, ciphertext 3993 + 1 delimiter, tag 16: a full 4096-byte record
    assert_eq!(m.body.len(), 4096);

    let over = vec![0u8; MAX_PLAINTEXT_LEN + 1];
    let r = encrypt(&over, &client_point, &auth);
    assert_eq!(r.err(), Some(PushError::PayloadTooLarge));
}

#[test]
fn malformed_client_material_is_an_encryption_error() {
    let (_, client_point) = client_keypair();

    // auth secret of the wrong length
    let r = encrypt(b"hello", &client_point, &[1u8; 15]);
    assert_eq!(r.err(), Some(PushError::Encryption));

    // a compressed or truncated point
    let r = encrypt(b"hello", &client_point[..33], &[1u8; 16]);
    assert_eq!(r.err(), Some(PushError::Encryption));

    // right length, wrong tag
    let mut bad = client_point.clone();
    bad[0] = 2;
    let r = encrypt(b"hello", &bad, &[1u8; 16]);
    assert_eq!(r.err(), Some(PushError::Encryption));

    // an injected ephemeral scalar that is not 32 bytes
    let r = encrypt_with(b"hello", &client_point, &[1u8; 16], &[5u8; 16], &[2u8; 31]);
    assert_eq!(r.err(), Some(PushError::Encryption));

    // an injected salt that is not 16 bytes
    let r = encrypt_with(b"hello", &client_point, &[1u8; 16], &[5u8; 15], &[2u8; 32]);
    assert_eq!(r.err(), Some(PushError::Encryption));
}
