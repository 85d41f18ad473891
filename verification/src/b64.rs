use vstd::prelude::*;

verus! {

/// The encoded byte of one 6-bit group in the URL-safe base64 alphabet
/// (RFC 4648 section 5): `A`..`Z`, `a`..`z`, `0`..`9`, `-`, `_`.
pub open spec fn b64url_char(v: u8) -> u8 {
    if v < 26 {
        (65 + v) as u8
    } else if v < 52 {
        (97 + (v - 26)) as u8
    } else if v < 62 {
        (48 + (v - 52)) as u8
    } else if v == 62 {
        45
    } else {
        95
    }
}

/// The 6-bit value of one encoded byte, if it belongs to the URL-safe
/// base64 alphabet.
pub open spec fn b64url_val(c: u8) -> Option<u8> {
    if 65 <= c && c <= 90 {
        Some((c - 65) as u8)
    } else if 97 <= c && c <= 122 {
        Some((c - 97 + 26) as u8)
    } else if 48 <= c && c <= 57 {
        Some((c - 48 + 52) as u8)
    } else if c == 45 {
        Some(62u8)
    } else if c == 95 {
        Some(63u8)
    } else {
        None
    }
}

/// URL-safe, unpadded base64 of a byte sequence (RFC 4648 section 5):
/// each group of three bytes becomes four alphabet bytes; a trailing group
/// of one or two bytes becomes two or three alphabet bytes whose unused
/// low bits are zero.
pub open spec fn b64url_of(s: Seq<u8>) -> Seq<u8>
    decreases s.len(),
{
    if s.len() == 0 {
        Seq::empty()
    } else if s.len() == 1 {
        seq![
            b64url_char((s[0] / 4) as u8),
            b64url_char(((s[0] % 4) * 16) as u8),
        ]
    } else if s.len() == 2 {
        seq![
            b64url_char((s[0] / 4) as u8),
            b64url_char(((s[0] % 4) * 16 + s[1] / 16) as u8),
            b64url_char(((s[1] % 16) * 4) as u8),
        ]
    } else {
        seq![
            b64url_char((s[0] / 4) as u8),
            b64url_char(((s[0] % 4) * 16 + s[1] / 16) as u8),
            b64url_char(((s[1] % 16) * 4 + s[2] / 64) as u8),
            b64url_char((s[2] % 64) as u8),
        ] + b64url_of(s.skip(3))
    }
}

/// Strict decoding of URL-safe, unpadded base64: `Some` exactly on the
/// sequences that `b64url_of` produces (alphabet bytes only, a length
/// never 1 modulo 4, and zero unused low bits in a trailing group).
pub open spec fn b64url_decode_of(t: Seq<u8>) -> Option<Seq<u8>>
    decreases t.len(),
{
    if t.len() == 0 {
        Some(Seq::empty())
    } else if t.len() == 1 {
        None
    } else if t.len() == 2 {
        if b64url_val(t[0]) is Some && b64url_val(t[1]) is Some {
            let a = b64url_val(t[0])->0;
            let b = b64url_val(t[1])->0;
            if b % 16 == 0 {
                Some(seq![(a * 4 + b / 16) as u8])
            } else {
                None
            }
        } else {
            None
        }
    } else if t.len() == 3 {
        if b64url_val(t[0]) is Some && b64url_val(t[1]) is Some && b64url_val(t[2]) is Some {
            let a = b64url_val(t[0])->0;
            let b = b64url_val(t[1])->0;
            let c = b64url_val(t[2])->0;
            if c % 4 == 0 {
                Some(seq![(a * 4 + b / 16) as u8, ((b % 16) * 16 + c / 4) as u8])
            } else {
                None
            }
        } else {
            None
        }
    } else {
        if b64url_val(t[0]) is Some && b64url_val(t[1]) is Some && b64url_val(t[2]) is Some
            && b64url_val(t[3]) is Some {
            let a = b64url_val(t[0])->0;
            let b = b64url_val(t[1])->0;
            let c = b64url_val(t[2])->0;
            let d = b64url_val(t[3])->0;
            match b64url_decode_of(t.skip(4)) {
                Some(rest) => Some(
                    seq![
                        (a * 4 + b / 16) as u8,
                        ((b % 16) * 16 + c / 4) as u8,
                        ((c % 4) * 64 + d) as u8,
                    ] + rest,
                ),
                None => None,
            }
        } else {
            None
        }
    }
}

/// Decoding inverts encoding at the alphabet level.
pub proof fn lemma_char_val(v: u8)
    requires
        v < 64,
    ensures
        b64url_val(b64url_char(v)) == Some(v),
{
}

/// Encoding inverts decoding at the alphabet level.
pub proof fn lemma_val_char(c: u8)
    requires
        b64url_val(c) is Some,
    ensures
        b64url_val(c)->0 < 64,
        b64url_char(b64url_val(c)->0) == c,
{
}

/// No byte of an encoded sequence is an ASCII dot, so joining encoded
/// segments with dots keeps the segments recoverable.
pub proof fn lemma_b64url_no_dot(s: Seq<u8>)
    ensures
        forall|i: int| 0 <= i < b64url_of(s).len() ==> b64url_of(s)[i] != 46,
    decreases s.len(),
{
    if s.len() >= 3 {
        lemma_b64url_no_dot(s.skip(3));
        assert forall|i: int| 0 <= i < b64url_of(s).len() implies b64url_of(s)[i] != 46 by {
            if i >= 4 {
                assert(b64url_of(s)[i] == b64url_of(s.skip(3))[i - 4]);
            }
        }
    }
}

/// Round trip: strict decoding recovers exactly the bytes that were
/// encoded.
pub proof fn lemma_b64url_round_trip(s: Seq<u8>)
    ensures
        b64url_decode_of(b64url_of(s)) == Some(s),
    decreases s.len(),
{
    let t = b64url_of(s);
    if s.len() == 0 {
        assert(s =~= Seq::<u8>::empty());
    } else if s.len() == 1 {
        lemma_char_val((s[0] / 4) as u8);
        lemma_char_val(((s[0] % 4) * 16) as u8);
        assert(b64url_decode_of(t) == Some(seq![
            ((s[0] / 4) * 4 + ((s[0] % 4) * 16) / 16) as u8,
        ]));
        assert(b64url_decode_of(t)->0 =~= s);
    } else if s.len() == 2 {
        lemma_char_val((s[0] / 4) as u8);
        lemma_char_val(((s[0] % 4) * 16 + s[1] / 16) as u8);
        lemma_char_val(((s[1] % 16) * 4) as u8);
        assert(b64url_decode_of(t)->0 =~= s);
    } else {
        lemma_char_val((s[0] / 4) as u8);
        lemma_char_val(((s[0] % 4) * 16 + s[1] / 16) as u8);
        lemma_char_val(((s[1] % 16) * 4 + s[2] / 64) as u8);
        lemma_char_val((s[2] % 64) as u8);
        lemma_b64url_round_trip(s.skip(3));
        assert(t.skip(4) =~= b64url_of(s.skip(3)));
        assert(b64url_decode_of(t)->0 =~= s);
    }
}

/// Canonicity: whenever strict decoding accepts a sequence, re-encoding
/// the decoded bytes reproduces that sequence, so accepted encodings are
/// unique.
pub proof fn lemma_b64url_canonical(t: Seq<u8>)
    ensures
        b64url_decode_of(t) matches Some(s) ==> b64url_of(s) == t,
    decreases t.len(),
{
    if b64url_decode_of(t) is Some {
        let s = b64url_decode_of(t)->0;
        if t.len() == 0 {
            assert(b64url_of(s) =~= t);
        } else if t.len() == 2 {
            lemma_val_char(t[0]);
            lemma_val_char(t[1]);
            assert(b64url_of(s) =~= t);
        } else if t.len() == 3 {
            lemma_val_char(t[0]);
            lemma_val_char(t[1]);
            lemma_val_char(t[2]);
            assert(b64url_of(s) =~= t);
        } else {
            lemma_val_char(t[0]);
            lemma_val_char(t[1]);
            lemma_val_char(t[2]);
            lemma_val_char(t[3]);
            lemma_b64url_canonical(t.skip(4));
            let rest = b64url_decode_of(t.skip(4))->0;
            let a = b64url_val(t[0])->0;
            let b = b64url_val(t[1])->0;
            let c = b64url_val(t[2])->0;
            let d = b64url_val(t[3])->0;
            assert(s[0] == (a * 4 + b / 16) as u8);
            assert(s[1] == ((b % 16) * 16 + c / 4) as u8);
            assert(s[2] == ((c % 4) * 64 + d) as u8);
            assert(s[0] / 4 == a && s[0] % 4 == b / 16);
            assert(s[1] / 16 == b % 16 && s[1] % 16 == c / 4);
            assert(s[2] / 64 == c % 4 && s[2] % 64 == d);
            assert(s.skip(3) =~= rest);
            assert(b64url_of(s) =~= t);
        }
    }
}

/// One alphabet byte, as executable code.
fn b64url_char_at(v: u8) -> (c: u8)
    requires
        v < 64,
    ensures
        c == b64url_char(v),
{
    if v < 26 {
        65 + v
    } else if v < 52 {
        97 + (v - 26)
    } else if v < 62 {
        48 + (v - 52)
    } else if v == 62 {
        45
    } else {
        95
    }
}

/// One alphabet byte decoded, as executable code.
fn b64url_val_at(c: u8) -> (r: Option<u8>)
    ensures
        r == b64url_val(c),
{
    if 65 <= c && c <= 90 {
        Some(c - 65)
    } else if 97 <= c && c <= 122 {
        Some(c - 97 + 26)
    } else if 48 <= c && c <= 57 {
        Some(c - 48 + 52)
    } else if c == 45 {
        Some(62)
    } else if c == 95 {
        Some(63)
    } else {
        None
    }
}

fn b64url_encode_into(s: &[u8], out: &mut Vec<u8>)
    ensures
        final(out)@ == old(out)@ + b64url_of(s@),
    decreases s@.len(),
{
    if s.len() == 0 {
        assert(out@ =~= old(out)@ + b64url_of(s@));
    } else if s.len() == 1 {
        out.push(b64url_char_at(s[0] / 4));
        out.push(b64url_char_at((s[0] % 4) * 16));
        assert(out@ =~= old(out)@ + b64url_of(s@));
    } else if s.len() == 2 {
        out.push(b64url_char_at(s[0] / 4));
        out.push(b64url_char_at((s[0] % 4) * 16 + s[1] / 16));
        out.push(b64url_char_at((s[1] % 16) * 4));
        assert(out@ =~= old(out)@ + b64url_of(s@));
    } else {
        out.push(b64url_char_at(s[0] / 4));
        out.push(b64url_char_at((s[0] % 4) * 16 + s[1] / 16));
        out.push(b64url_char_at((s[1] % 16) * 4 + s[2] / 64));
        out.push(b64url_char_at(s[2] % 64));
        let rest = vstd::slice::slice_subrange(s, 3, s.len());
        assert(rest@ =~= s@.skip(3));
        b64url_encode_into(rest, out);
        assert(out@ =~= old(out)@ + b64url_of(s@));
    }
}

/// Encodes bytes as URL-safe, unpadded base64.
pub fn b64url_encode(s: &[u8]) -> (r: Vec<u8>)
    ensures
        r@ == b64url_of(s@),
{
    let mut out = Vec::new();
    b64url_encode_into(s, &mut out);
    assert(out@ =~= b64url_of(s@));
    out
}

fn b64url_decode_into(t: &[u8], out: &mut Vec<u8>) -> (ok: bool)
    ensures
        ok ==> b64url_decode_of(t@) is Some && final(out)@ == old(out)@ + b64url_decode_of(t@)->0,
        !ok ==> b64url_decode_of(t@) is None,
    decreases t@.len(),
{
    if t.len() == 0 {
        assert(out@ =~= old(out)@ + b64url_decode_of(t@)->0);
        true
    } else if t.len() == 1 {
        false
    } else if t.len() == 2 {
        let a = b64url_val_at(t[0]);
        let b = b64url_val_at(t[1]);
        match (a, b) {
            (Some(a), Some(b)) => {
                if b % 16 == 0 {
                    out.push(a * 4 + b / 16);
                    assert(out@ =~= old(out)@ + b64url_decode_of(t@)->0);
                    true
                } else {
                    false
                }
            },
            _ => false,
        }
    } else if t.len() == 3 {
        let a = b64url_val_at(t[0]);
        let b = b64url_val_at(t[1]);
        let c = b64url_val_at(t[2]);
        match (a, b, c) {
            (Some(a), Some(b), Some(c)) => {
                if c % 4 == 0 {
                    out.push(a * 4 + b / 16);
                    out.push((b % 16) * 16 + c / 4);
                    assert(out@ =~= old(out)@ + b64url_decode_of(t@)->0);
                    true
                } else {
                    false
                }
            },
            _ => false,
        }
    } else {
        let a = b64url_val_at(t[0]);
        let b = b64url_val_at(t[1]);
        let c = b64url_val_at(t[2]);
        let d = b64url_val_at(t[3]);
        match (a, b, c, d) {
            (Some(a), Some(b), Some(c), Some(d)) => {
                out.push(a * 4 + b / 16);
                out.push((b % 16) * 16 + c / 4);
                out.push((c % 4) * 64 + d);
                let rest = vstd::slice::slice_subrange(t, 4, t.len());
                assert(rest@ =~= t@.skip(4));
                let ok = b64url_decode_into(rest, out);
                if ok {
                    assert(out@ =~= old(out)@ + b64url_decode_of(t@)->0);
                }
                ok
            },
            _ => false,
        }
    }
}

/// Decodes URL-safe, unpadded base64 strictly: returns the decoded bytes
/// exactly when the input is an encoding that `b64url_of` can produce, and
/// `None` on every other input.
pub fn b64url_decode(t: &[u8]) -> (r: Option<Vec<u8>>)
    ensures
        r is Some ==> b64url_decode_of(t@) == Some(r->0@),
        r is None ==> b64url_decode_of(t@) is None,
{
    let mut out = Vec::new();
    if b64url_decode_into(t, &mut out) {
        assert(out@ =~= b64url_decode_of(t@)->0);
        Some(out)
    } else {
        None
    }
}

} // verus!
