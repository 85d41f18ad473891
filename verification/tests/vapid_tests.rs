use push_core::PushError;
use push_core::b64::b64url_decode;
use push_core::keys::{KeyStore, SigningIdentity, current_identity, ensure_identity};
use push_core::vapid::{origin_of_endpoint, sign};

fn fresh_identity() -> SigningIdentity {
    let ns = ensure_identity(KeyStore { private_pem: None, public_b64: None }).unwrap();
    current_identity(&ns).unwrap()
}

const NOW: u64 = 1_700_000_000;
const TTL: u64 = 12 * 60 * 60;

#[test]
fn token_has_two_dots_and_three_segments() {
    let id = fresh_identity();
    let v = sign(
        &id,
        &b"https://push.example".to_vec(),
        &b"mailto:ops@example.com".to_vec(),
        NOW,
        TTL,
    )
    .unwrap();
    assert_eq!(v.public_point, id.public_point);
    let token = String::from_utf8(v.token).unwrap();
    let parts: Vec<&str> = token.split('.').collect();
    assert_eq!(parts.len(), 3);
    for p in &parts {
        assert!(!p.is_empty());
    }
    let sig = b64url_decode(parts[2].as_bytes()).unwrap();
    assert_eq!(sig.len(), 64);
}

#[test]
fn claims_carry_audience_expiration_and_contact() {
    let id = fresh_identity();
    let aud = "https://updates.push.services.mozilla.com";
    let v = sign(
        &id,
        &aud.as_bytes().to_vec(),
        &b"mailto:ops@example.com".to_vec(),
        NOW,
        TTL,
    )
    .unwrap();
    let token = String::from_utf8(v.token).unwrap();
    let parts: Vec<&str> = token.split('.').collect();

    let header_bytes = b64url_decode(parts[0].as_bytes()).unwrap();
    let header: serde_json::Value = serde_json::from_slice(&header_bytes).unwrap();
    assert_eq!(header["typ"], "JWT");
    assert_eq!(header["alg"], "ES256");

    let claim_bytes = b64url_decode(parts[1].as_bytes()).unwrap();
    let claims: serde_json::Value = serde_json::from_slice(&claim_bytes).unwrap();
    assert_eq!(claims["aud"], aud);
    assert_eq!(claims["sub"], "mailto:ops@example.com");
    let exp = claims["exp"].as_u64().unwrap();
    assert!(exp > NOW);
    assert!(exp <= NOW + TTL);
    assert_eq!(exp, NOW + TTL);
}

#[test]
fn token_signature_verifies_under_the_public_point() {
    let id = fresh_identity();
    let v = sign(
        &id,
        &b"https://push.example".to_vec(),
        &b"mailto:ops@example.com".to_vec(),
        NOW,
        TTL,
    )
    .unwrap();
    let token = String::from_utf8(v.token).unwrap();
    let parts: Vec<&str> = token.split('.').collect();
    let signing_input = format!("{}.{}", parts[0], parts[1]);
    let digest = openssl::sha::sha256(signing_input.as_bytes());

    let sig = b64url_decode(parts[2].as_bytes()).unwrap();
    let r = openssl::bn::BigNum::from_slice(&sig[..32]).unwrap();
    let s = openssl::bn::BigNum::from_slice(&sig[32..]).unwrap();
    let ecdsa = openssl::ecdsa::EcdsaSig::from_private_components(r, s).unwrap();

    let group =
        openssl::ec::EcGroup::from_curve_name(openssl::nid::Nid::X9_62_PRIME256V1).unwrap();
    let mut ctx = openssl::bn::BigNumContext::new().unwrap();
    let point = openssl::ec::EcPoint::from_bytes(&group, &v.public_point, &mut ctx).unwrap();
    let key = openssl::ec::EcKey::from_public_key(&group, &point).unwrap();
    assert!(ecdsa.verify(&digest, &key).unwrap());
}

#[test]
fn signing_fails_with_an_unusable_private_key() {
    let id = SigningIdentity {
        private_pem: b"not a pem at all".to_vec(),
        public_point: {
            let mut p = vec![4u8];
            p.extend_from_slice(&[0u8; 64]);
            p
        },
    };
    let r = sign(
        &id,
        &b"https://push.example".to_vec(),
        &b"mailto:ops@example.com".to_vec(),
        NOW,
        TTL,
    );
    assert_eq!(r.err(), Some(PushError::Signing));
}

#[test]
fn origin_keeps_scheme_and_host_and_drops_the_path() {
    assert_eq!(
        origin_of_endpoint(b"https://updates.push.services.mozilla.com/wpush/v2/abcdef"),
        Some(b"https://updates.push.services.mozilla.com".to_vec())
    );
    assert_eq!(
        origin_of_endpoint(b"https://push.example.net:8443/x/y?z=1"),
        Some(b"https://push.example.net:8443".to_vec())
    );
    assert_eq!(
        origin_of_endpoint(b"https://host.example"),
        Some(b"https://host.example".to_vec())
    );
}

#[test]
fn malformed_endpoints_have_no_origin() {
    assert_eq!(origin_of_endpoint(b"no-scheme-here"), None);
    assert_eq!(origin_of_endpoint(b"://host/path"), None);
    assert_eq!(origin_of_endpoint(b"https:///path"), None);
    assert_eq!(origin_of_endpoint(b""), None);
}
