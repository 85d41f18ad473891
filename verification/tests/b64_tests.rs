use push_core::b64::{b64url_decode, b64url_encode};

#[test]
fn encodes_known_vectors() {
    assert_eq!(b64url_encode(b""), b"".to_vec());
    assert_eq!(b64url_encode(b"f"), b"Zg".to_vec());
    assert_eq!(b64url_encode(b"fo"), b"Zm8".to_vec());
    assert_eq!(b64url_encode(b"foo"), b"Zm9v".to_vec());
    assert_eq!(b64url_encode(b"foob"), b"Zm9vYg".to_vec());
    assert_eq!(b64url_encode(b"fooba"), b"Zm9vYmE".to_vec());
    assert_eq!(b64url_encode(b"foobar"), b"Zm9vYmFy".to_vec());
}

#[test]
fn uses_the_url_safe_alphabet() {
    assert_eq!(b64url_encode(&[255, 255, 255]), b"____".to_vec());
    assert_eq!(b64url_encode(&[251, 239]), b"--8".to_vec());
}

#[test]
fn decodes_what_it_encodes() {
    let samples: Vec<Vec<u8>> = vec![
        vec![],
        vec![0],
        vec![4, 1, 2],
        vec![255, 0, 128, 7],
        (0u8..=255).collect(),
        vec![42; 65],
    ];
    for s in samples {
        let enc = b64url_encode(&s);
        assert_eq!(b64url_decode(&enc), Some(s));
    }
}

#[test]
fn rejects_padding_and_foreign_bytes() {
    assert_eq!(b64url_decode(b"Zg=="), None);
    assert_eq!(b64url_decode(b"Zm8="), None);
    assert_eq!(b64url_decode(b"Zm+v"), None);
    assert_eq!(b64url_decode(b"Zm/v"), None);
    assert_eq!(b64url_decode(b"Zm 9"), None);
}

#[test]
fn rejects_impossible_lengths() {
    assert_eq!(b64url_decode(b"Z"), None);
    assert_eq!(b64url_decode(b"Zm9vY"), None);
}

#[test]
fn rejects_nonzero_trailing_bits() {
    // `Zh` carries one spare low bit set; a strict decoder refuses it.
    assert_eq!(b64url_decode(b"Zg"), Some(vec![102]));
    assert_eq!(b64url_decode(b"Zh"), None);
    assert_eq!(b64url_decode(b"Zm8"), Some(vec![102, 111]));
    assert_eq!(b64url_decode(b"Zm9"), None);
}
