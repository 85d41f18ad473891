use vstd::prelude::*;

use crate::PushError;
use crate::b64::{
    b64url_decode, b64url_decode_of, b64url_encode, b64url_of, lemma_b64url_round_trip,
};
use crate::crypto::pem_public_point_of;
use crate::spki::extract_p256_point;

verus! {

/// The two persisted artifacts of the signing identity, as the
/// surrounding storage hands them over: the PEM-encoded private key and
/// the base64url-encoded public point. Either may be absent; the
/// invariant of the identity is that they are only ever (re)generated
/// together.
pub struct KeyStore {
    pub private_pem: Option<Vec<u8>>,
    pub public_b64: Option<Vec<u8>>,
}

impl KeyStore {
    /// Both artifacts are present.
    pub open spec fn complete(self) -> bool {
        self.private_pem is Some && self.public_b64 is Some
    }
}

/// What `ensure_identity` does to the store, as a function of the store
/// and of the freshly generated artifacts it would use: a complete store
/// is left untouched, an incomplete one is replaced wholesale, so the two
/// artifacts can never mix generations.
pub open spec fn ensure_spec(store: KeyStore, fresh: KeyStore) -> KeyStore {
    if store.complete() {
        store
    } else {
        fresh
    }
}

/// A store whose artifacts were just generated together: both present,
/// and the public artifact is the base64url encoding of the private
/// key's own uncompressed public point — the two artifacts belong to one
/// keypair and can never mix generations.
pub open spec fn fresh_artifacts(store: KeyStore) -> bool {
    &&& store.private_pem is Some
    &&& store.public_b64 is Some
    &&& store.public_b64->0@ == b64url_of(pem_public_point_of(store.private_pem->0@))
    &&& pem_public_point_of(store.private_pem->0@).len() == 65
    &&& pem_public_point_of(store.private_pem->0@)[0] == 4
}

/// The public artifact of a freshly generated store decodes back to the
/// private key's own public point: exactly 65 bytes, starting with the
/// uncompressed-point tag 4, so such a store can always be loaded and
/// the pair can never mismatch.
pub proof fn lemma_public_artifact_round_trip(store: KeyStore)
    requires
        fresh_artifacts(store),
    ensures
        store.public_b64 matches Some(pb) && b64url_decode_of(pb@) == Some(
            pem_public_point_of(store.private_pem->0@),
        ),
        store.public_b64 matches Some(pb) && (b64url_decode_of(pb@) matches Some(pt) && pt.len()
            == 65 && pt[0] == 4),
        loadable(store),
{
    lemma_b64url_round_trip(pem_public_point_of(store.private_pem->0@));
}

/// An identity loaded from a freshly generated store is coherent: the
/// public point it carries is its own private key's public point, so the
/// artifact served to clients matches the key that signs.
pub proof fn lemma_loaded_identity_coherent(store: KeyStore, id: SigningIdentity)
    requires
        fresh_artifacts(store),
        store.private_pem matches Some(pem) && id.private_pem@ == pem@,
        store.public_b64 matches Some(pb) && b64url_decode_of(pb@) == Some(id.public_point@),
    ensures
        id.public_point@ == pem_public_point_of(id.private_pem@),
{
    lemma_b64url_round_trip(pem_public_point_of(store.private_pem->0@));
}

/// Re-running `ensure_identity` changes nothing: once the store is
/// complete, any later run leaves it as it is, whatever fresh artifacts
/// that run would have drawn.
pub proof fn lemma_ensure_idempotent(store: KeyStore, fresh1: KeyStore, fresh2: KeyStore)
    requires
        fresh1.complete(),
    ensures
        ensure_spec(ensure_spec(store, fresh1), fresh2) == ensure_spec(store, fresh1),
{
}

/// Makes sure both identity artifacts exist: a complete store is returned
/// unchanged, and an incomplete one is replaced by a freshly generated
/// pair whose public artifact encodes the new private key's own 65-byte
/// uncompressed public point, taken from the key's SubjectPublicKeyInfo.
/// Fails only when the keypair primitive fails or yields a malformed
/// encoding.
pub fn ensure_identity(store: KeyStore) -> (r: Result<KeyStore, PushError>)
    ensures
        store.complete() ==> r == Ok::<KeyStore, PushError>(store),
        r matches Ok(ns) ==> ns.complete(),
        r matches Ok(ns) ==> ns == ensure_spec(store, ns),
        r matches Ok(ns) ==> (store.complete() || fresh_artifacts(ns)),
        r is Err ==> !store.complete() && r->Err_0 == PushError::KeyGeneration,
{
    if store.private_pem.is_some() && store.public_b64.is_some() {
        Ok(store)
    } else {
        match crate::crypto::gen_p256_keypair() {
            None => Err(PushError::KeyGeneration),
            Some((pem, der)) => {
                match extract_p256_point(der.as_slice()) {
                    None => Err(PushError::KeyGeneration),
                    Some(pt) => {
                        let pb = b64url_encode(pt.as_slice());
                        let ns = KeyStore { private_pem: Some(pem), public_b64: Some(pb) };
                        proof {
                            assert(pt@ == pem_public_point_of(ns.private_pem->0@));
                            assert(ns.public_b64->0@ == b64url_of(pt@));
                            assert(fresh_artifacts(ns));
                            assert(ensure_spec(store, ns) == ns);
                        }
                        Ok(ns)
                    },
                }
            },
        }
    }
}

/// The in-memory signing identity: the private key material as persisted,
/// and the raw 65-byte uncompressed public point.
pub struct SigningIdentity {
    pub private_pem: Vec<u8>,
    pub public_point: Vec<u8>,
}

impl SigningIdentity {
    /// The public point has the uncompressed shape clients and push
    /// services expect.
    pub open spec fn wf(self) -> bool {
        self.public_point@.len() == 65 && self.public_point@[0] == 4
    }
}

/// Whether a store can be loaded: both artifacts present and the public
/// one a strict base64url encoding of a well-formed uncompressed point.
pub open spec fn loadable(store: KeyStore) -> bool {
    &&& store.private_pem is Some
    &&& store.public_b64 matches Some(pb) && (b64url_decode_of(pb@) matches Some(pt)
        && pt.len() == 65 && pt[0] == 4)
}

/// Loads the signing identity from the persisted artifacts: the private
/// key is taken as stored and the public point is decoded from its
/// base64url artifact. Fails with a persistence error exactly when an
/// artifact is absent or the public one is malformed.
pub fn current_identity(store: &KeyStore) -> (r: Result<SigningIdentity, PushError>)
    ensures
        r matches Ok(id) ==> {
            &&& id.wf()
            &&& store.private_pem matches Some(pem) && id.private_pem@ == pem@
            &&& store.public_b64 matches Some(pb) && b64url_decode_of(pb@) == Some(
                id.public_point@,
            )
        },
        r is Ok <==> loadable(*store),
        r is Err ==> r->Err_0 == PushError::Persistence,
{
    match (&store.private_pem, &store.public_b64) {
        (Some(pem), Some(pb)) => {
            match b64url_decode(pb.as_slice()) {
                Some(pt) => {
                    if pt.len() == 65 && *vstd::slice::slice_index_get(pt.as_slice(), 0) == 4 {
                        Ok(SigningIdentity {
                            private_pem: vstd::slice::slice_to_vec(pem.as_slice()),
                            public_point: pt,
                        })
                    } else {
                        Err(PushError::Persistence)
                    }
                },
                None => Err(PushError::Persistence),
            }
        },
        _ => Err(PushError::Persistence),
    }
}

} // verus!

