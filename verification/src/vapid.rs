use vstd::prelude::*;

use crate::PushError;
use crate::push_all;
use crate::b64::{
    b64url_decode_of, b64url_encode, b64url_of, lemma_b64url_no_dot, lemma_b64url_round_trip,
};
use crate::crypto::{p256_verifies, sha256_of};
use crate::decimal::{dec_of, push_decimal};
use crate::keys::SigningIdentity;

verus! {

/// The fixed JWT header of a VAPID token: `{"typ":"JWT","alg":"ES256"}`.
pub open spec fn vapid_header_json() -> Seq<u8> {
    seq![
        123u8, 34, 116, 121, 112, 34, 58, 34, 74, 87, 84, 34, 44, 34, 97, 108, 103, 34, 58, 34,
        69, 83, 50, 53, 54, 34, 125,
    ]
}

/// The JSON claim set of a VAPID token,
/// `{"aud":"<audience>","exp":<exp>,"sub":"<contact>"}`: the audience and
/// contact bytes stand verbatim between the quotes and the expiration is
/// in decimal.
pub open spec fn claims_json_of(aud: Seq<u8>, exp: nat, sub: Seq<u8>) -> Seq<u8> {
    seq![123u8, 34, 97, 117, 100, 34, 58, 34] + aud + seq![34u8, 44, 34, 101, 120, 112, 34, 58]
        + dec_of(exp) + seq![44u8, 34, 115, 117, 98, 34, 58, 34] + sub + seq![34u8, 125]
}

/// The signing input of a VAPID token: the base64url header and claims
/// joined by a dot.
pub open spec fn signing_input_of(aud: Seq<u8>, exp: nat, sub: Seq<u8>) -> Seq<u8> {
    b64url_of(vapid_header_json()) + seq![46u8] + b64url_of(claims_json_of(aud, exp, sub))
}

/// A complete VAPID token: the signing input, a dot, and the base64url
/// ECDSA signature.
pub open spec fn vapid_token_of(aud: Seq<u8>, exp: nat, sub: Seq<u8>, sig: Seq<u8>) -> Seq<u8> {
    signing_input_of(aud, exp, sub) + seq![46u8] + b64url_of(sig)
}

/// The audience stands verbatim in the claim set, directly after the
/// eight-byte `{"aud":"` prefix, whatever the expiration and contact are.
pub proof fn lemma_claims_audience(aud: Seq<u8>, exp: nat, sub: Seq<u8>)
    ensures
        claims_json_of(aud, exp, sub).subrange(8, 8 + aud.len() as int) == aud,
{
    assert(claims_json_of(aud, exp, sub).subrange(8, 8 + aud.len() as int) =~= aud);
}

/// A token splits on dots into exactly three segments: the two dots that
/// `vapid_token_of` places are the only dots, because base64url output
/// never contains one.
pub proof fn lemma_token_structure(aud: Seq<u8>, exp: nat, sub: Seq<u8>, sig: Seq<u8>)
    ensures
        ({
            let t = vapid_token_of(aud, exp, sub, sig);
            let h = b64url_of(vapid_header_json());
            let c = b64url_of(claims_json_of(aud, exp, sub));
            let s = b64url_of(sig);
            &&& t == h + seq![46u8] + c + seq![46u8] + s
            &&& t.len() == h.len() + c.len() + s.len() + 2
            &&& t[h.len() as int] == 46
            &&& t[h.len() as int + 1 + c.len() as int] == 46
            &&& forall|i: int| 0 <= i < t.len() && i != h.len() && i != h.len() + 1 + c.len()
                ==> t[i] != 46
        }),
{
    let t = vapid_token_of(aud, exp, sub, sig);
    let h = b64url_of(vapid_header_json());
    let c = b64url_of(claims_json_of(aud, exp, sub));
    let s = b64url_of(sig);
    lemma_b64url_no_dot(vapid_header_json());
    lemma_b64url_no_dot(claims_json_of(aud, exp, sub));
    lemma_b64url_no_dot(sig);
    assert(t =~= h + seq![46u8] + c + seq![46u8] + s);
    assert forall|i: int|
        0 <= i < t.len() && i != h.len() && i != h.len() + 1 + c.len() implies t[i] != 46 by {
        if i < h.len() {
            assert(t[i] == h[i]);
        } else if i < h.len() + 1 + c.len() {
            assert(t[i] == c[i - h.len() - 1]);
        } else {
            assert(t[i] == s[i - h.len() - c.len() - 2]);
        }
    }
}

/// Each token segment decodes back to exactly what it encodes: whoever
/// splits the token on its dots recovers the header, the claim set with
/// its audience and expiration, and the 64-byte signature.
pub proof fn lemma_token_segments_decode(aud: Seq<u8>, exp: nat, sub: Seq<u8>, sig: Seq<u8>)
    ensures
        b64url_decode_of(b64url_of(vapid_header_json())) == Some(vapid_header_json()),
        b64url_decode_of(b64url_of(claims_json_of(aud, exp, sub))) == Some(
            claims_json_of(aud, exp, sub),
        ),
        b64url_decode_of(b64url_of(sig)) == Some(sig),
{
    lemma_b64url_round_trip(vapid_header_json());
    lemma_b64url_round_trip(claims_json_of(aud, exp, sub));
    lemma_b64url_round_trip(sig);
}

fn vapid_header_bytes() -> (r: Vec<u8>)
    ensures
        r@ == vapid_header_json(),
{
    let mut v: Vec<u8> = Vec::new();
    v.push(123);
    v.push(34);
    v.push(116);
    v.push(121);
    v.push(112);
    v.push(34);
    v.push(58);
    v.push(34);
    v.push(74);
    v.push(87);
    v.push(84);
    v.push(34);
    v.push(44);
    v.push(34);
    v.push(97);
    v.push(108);
    v.push(103);
    v.push(34);
    v.push(58);
    v.push(34);
    v.push(69);
    v.push(83);
    v.push(50);
    v.push(53);
    v.push(54);
    v.push(34);
    v.push(125);
    assert(v@ =~= vapid_header_json());
    v
}

fn build_claims(aud: &[u8], exp: u64, sub: &[u8]) -> (r: Vec<u8>)
    ensures
        r@ == claims_json_of(aud@, exp as nat, sub@),
{
    let mut v: Vec<u8> = Vec::new();
    v.push(123);
    v.push(34);
    v.push(97);
    v.push(117);
    v.push(100);
    v.push(34);
    v.push(58);
    v.push(34);
    push_all(&mut v, aud);
    v.push(34);
    v.push(44);
    v.push(34);
    v.push(101);
    v.push(120);
    v.push(112);
    v.push(34);
    v.push(58);
    push_decimal(exp, &mut v);
    v.push(44);
    v.push(34);
    v.push(115);
    v.push(117);
    v.push(98);
    v.push(34);
    v.push(58);
    v.push(34);
    push_all(&mut v, sub);
    v.push(34);
    v.push(125);
    assert(v@ =~= claims_json_of(aud@, exp as nat, sub@));
    v
}

/// A signed VAPID assertion: the compact token and the raw uncompressed
/// public point of the identity that signed it, which the push service
/// needs alongside the token.
pub struct VapidSignature {
    pub token: Vec<u8>,
    pub public_point: Vec<u8>,
}

/// Signs a VAPID token for one push-service origin: the claim set binds
/// the audience verbatim, expires exactly `ttl` seconds after `now`, and
/// names the contact; the signature is ECDSA-SHA256 over the base64url
/// header and claims under the identity's private key, and verifies
/// under that key's public point. Fails only when the private key is
/// unusable or the signature primitive fails.
pub fn sign(
    identity: &SigningIdentity,
    audience: &Vec<u8>,
    contact: &Vec<u8>,
    now: u64,
    ttl: u64,
) -> (r: Result<VapidSignature, PushError>)
    requires
        1 <= ttl,
        now + ttl <= u64::MAX,
    ensures
        r matches Ok(v) ==> {
            &&& v.public_point@ == identity.public_point@
            &&& exists|sig: Seq<u8>| {
                &&& sig.len() == 64
                &&& p256_verifies(
                    identity.private_pem@,
                    sha256_of(signing_input_of(audience@, (now + ttl) as nat, contact@)),
                    sig,
                )
                &&& v.token@ == vapid_token_of(audience@, (now + ttl) as nat, contact@, sig)
            }
        },
        r is Err ==> r->Err_0 == PushError::Signing,
{
    // the signing primitive's PEM reader takes at most a C int of bytes;
    // a longer blob is no usable key
    if identity.private_pem.len() >= 0x8000_0000 {
        return Err(PushError::Signing);
    }
    let exp = now + ttl;
    let header = vapid_header_bytes();
    let claims = build_claims(audience.as_slice(), exp, contact.as_slice());
    let mut input = b64url_encode(header.as_slice());
    input.push(46);
    let claims_b64 = b64url_encode(claims.as_slice());
    push_all(&mut input, claims_b64.as_slice());
    assert(input@ =~= signing_input_of(audience@, exp as nat, contact@));
    let digest = crate::crypto::sha256(input.as_slice());
    match crate::crypto::ecdsa_p256_sign_raw(identity.private_pem.as_slice(), digest.as_slice()) {
        None => Err(PushError::Signing),
        Some((rv, sv)) => {
            let mut sig = rv;
            push_all(&mut sig, sv.as_slice());
            let ghost sigv = sig@;
            let sig_b64 = b64url_encode(sig.as_slice());
            let mut token = input;
            token.push(46);
            push_all(&mut token, sig_b64.as_slice());
            proof {
                assert(sigv.len() == 64);
                assert(sigv == rv@ + sv@);
                assert(digest@ == sha256_of(signing_input_of(audience@, exp as nat, contact@)));
                assert(p256_verifies(
                    identity.private_pem@,
                    sha256_of(signing_input_of(audience@, exp as nat, contact@)),
                    sigv,
                ));
                assert(token@ =~= vapid_token_of(audience@, exp as nat, contact@, sigv));
            }
            Ok(VapidSignature {
                token,
                public_point: vstd::slice::slice_to_vec(identity.public_point.as_slice()),
            })
        },
    }
}

/// A scheme separator `://` starts at position `p`.
pub open spec fn scheme_sep_at(e: Seq<u8>, p: int) -> bool {
    0 <= p && p + 3 <= e.len() && e[p] == 58 && e[p + 1] == 47 && e[p + 2] == 47
}

/// The endpoint splits into origin and path at `p` and `q`: the first
/// scheme separator starts at `p` after a nonempty scheme, a nonempty
/// host runs to `q`, and `q` is the end or the first slash after the
/// host.
pub open spec fn origin_split(e: Seq<u8>, p: int, q: int) -> bool {
    &&& scheme_sep_at(e, p)
    &&& 1 <= p
    &&& forall|j: int| 0 <= j < p ==> !scheme_sep_at(e, j)
    &&& p + 3 < q <= e.len()
    &&& forall|j: int| p + 3 <= j < q ==> e[j] != 47
    &&& q == e.len() || e[q] == 47
}

/// `o` is the origin (scheme, separator and host, without path or query)
/// of the endpoint `e`.
pub open spec fn is_endpoint_origin(e: Seq<u8>, o: Seq<u8>) -> bool {
    exists|p: int, q: int| origin_split(e, p, q) && o == e.take(q)
}

/// The endpoint has a well-formed origin.
pub open spec fn has_origin(e: Seq<u8>) -> bool {
    exists|p: int, q: int| origin_split(e, p, q)
}

/// Derives the VAPID audience from a subscription endpoint: everything up
/// to, and not including, the first slash after the `://` separator.
/// Returns `None` exactly when the endpoint has no separator, an empty
/// scheme or an empty host.
pub fn origin_of_endpoint(e: &[u8]) -> (r: Option<Vec<u8>>)
    ensures
        r matches Some(o) ==> is_endpoint_origin(e@, o@),
        r is Some <==> has_origin(e@),
{
    let n = e.len();
    if n < 3 {
        proof {
            assert forall|pp: int, qq: int| !origin_split(e@, pp, qq) by {}
        }
        return None;
    }
    let mut p: usize = 0;
    while p <= n - 3 && !(e[p] == 58 && e[p + 1] == 47 && e[p + 2] == 47)
        invariant
            p <= n,
            3 <= n == e@.len(),
            forall|j: int| 0 <= j < p ==> !scheme_sep_at(e@, j),
        decreases n - p,
    {
        p += 1;
    }
    if p > n - 3 {
        proof {
            assert forall|pp: int, qq: int| !origin_split(e@, pp, qq) by {
                if scheme_sep_at(e@, pp) {
                    assert(pp < p);
                }
            }
        }
        return None;
    }
    assert(scheme_sep_at(e@, p as int));
    if p == 0 {
        proof {
            assert forall|pp: int, qq: int| !origin_split(e@, pp, qq) by {
                if origin_split(e@, pp, qq) {
                    assert(!scheme_sep_at(e@, 0));
                }
            }
        }
        return None;
    }
    let mut q: usize = p + 3;
    while q < n && e[q] != 47
        invariant
            p + 3 <= q <= n,
            n == e@.len(),
            forall|j: int| p + 3 <= j < q ==> e@[j] != 47,
        decreases n - q,
    {
        q += 1;
    }
    if q == p + 3 {
        proof {
            assert forall|pp: int, qq: int| !origin_split(e@, pp, qq) by {
                if origin_split(e@, pp, qq) {
                    if pp < p {
                        assert(!scheme_sep_at(e@, pp));
                    } else if pp > p {
                        assert(!scheme_sep_at(e@, p as int));
                    } else {
                        if q < n {
                            assert(e@[pp + 3] == 47);
                        }
                    }
                }
            }
        }
        return None;
    }
    let o = vstd::slice::slice_to_vec(vstd::slice::slice_subrange(e, 0, q));
    proof {
        assert(origin_split(e@, p as int, q as int));
        assert(o@ =~= e@.take(q as int));
    }
    Some(o)
}

} // verus!
