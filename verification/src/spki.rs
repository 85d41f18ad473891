use vstd::prelude::*;

verus! {

/// The DER prefix of a SubjectPublicKeyInfo that carries an uncompressed
/// P-256 public key: a 91-byte outer SEQUENCE, an AlgorithmIdentifier
/// naming id-ecPublicKey with the prime256v1 curve, and a 66-byte BIT
/// STRING with zero unused bits. The 65-byte uncompressed point follows
/// this prefix.
pub open spec fn p256_spki_prefix() -> Seq<u8> {
    seq![
        48u8, 89, 48, 19, 6, 7, 42, 134, 72, 206, 61, 2, 1, 6, 8, 42, 134, 72, 206, 61, 3, 1, 7,
        3, 66, 0,
    ]
}

/// The public point carried by a DER-encoded SubjectPublicKeyInfo, if the
/// encoding is exactly the P-256 uncompressed form: the fixed 26-byte
/// prefix followed by a 65-byte point tagged `0x04`.
pub open spec fn spki_point_of(d: Seq<u8>) -> Option<Seq<u8>> {
    if d.len() == 91 && d.subrange(0, 26) == p256_spki_prefix() && d[26] == 4 {
        Some(d.skip(26))
    } else {
        None
    }
}

fn p256_spki_prefix_bytes() -> (r: Vec<u8>)
    ensures
        r@ == p256_spki_prefix(),
{
    let mut v: Vec<u8> = Vec::new();
    v.push(48);
    v.push(89);
    v.push(48);
    v.push(19);
    v.push(6);
    v.push(7);
    v.push(42);
    v.push(134);
    v.push(72);
    v.push(206);
    v.push(61);
    v.push(2);
    v.push(1);
    v.push(6);
    v.push(8);
    v.push(42);
    v.push(134);
    v.push(72);
    v.push(206);
    v.push(61);
    v.push(3);
    v.push(1);
    v.push(7);
    v.push(3);
    v.push(66);
    v.push(0);
    assert(v@ =~= p256_spki_prefix());
    v
}

/// Parses a DER SubjectPublicKeyInfo and returns the raw 65-byte
/// uncompressed P-256 point it carries, or `None` when the encoding is not
/// exactly that shape. This replaces any fixed-offset shortcut: the
/// algorithm identifier is checked byte for byte, so a key of another
/// curve or size is refused rather than truncated.
pub fn extract_p256_point(d: &[u8]) -> (r: Option<Vec<u8>>)
    ensures
        r matches Some(pt) ==> spki_point_of(d@) == Some(pt@) && pt@.len() == 65 && pt@[0] == 4,
        r is None ==> spki_point_of(d@) is None,
{
    if d.len() != 91 {
        return None;
    }
    let prefix = p256_spki_prefix_bytes();
    let mut i: usize = 0;
    while i < 26
        invariant
            i <= 26,
            d@.len() == 91,
            prefix@ == p256_spki_prefix(),
            forall|j: int| 0 <= j < i ==> d@[j] == p256_spki_prefix()[j],
        decreases 26 - i,
    {
        if d[i] != prefix[i] {
            assert(d@.subrange(0, 26)[i as int] != p256_spki_prefix()[i as int]);
            return None;
        }
        i += 1;
    }
    assert(d@.subrange(0, 26) =~= p256_spki_prefix());
    if d[26] != 4 {
        return None;
    }
    let pt = vstd::slice::slice_to_vec(vstd::slice::slice_subrange(d, 26, 91));
    assert(pt@ =~= d@.skip(26));
    Some(pt)
}

} // verus!
