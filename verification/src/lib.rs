use vstd::prelude::*;

pub mod b64;
pub mod cipher;
pub mod crypto;
pub mod decimal;
pub mod delivery;
pub mod keys;
pub mod spki;
pub mod vapid;

verus! {

/// A value that the surrounding application serves verbatim as a static
/// file, such as the public-key artifact handed to registering clients.
pub struct StaticFile<T>(pub T);

/// Failures of the key-lifecycle and message-preparation operations.
///
/// `KeyGeneration` marks a failure of the keypair primitive or a malformed
/// freshly generated key; `Persistence` marks absent or unreadable key
/// artifacts; `Signing` marks a failure of the signature primitive;
/// `Encryption` marks malformed client key material or a failure of the
/// encryption primitives; `PayloadTooLarge` marks a plaintext over the
/// push-service maximum, reported before any network traffic.
#[derive(Clone, Copy, Debug, PartialEq, Eq)]
pub enum PushError {
    KeyGeneration,
    Persistence,
    Signing,
    Encryption,
    PayloadTooLarge,
}

/// Appends a whole slice to a vector.
pub(crate) fn push_all(out: &mut Vec<u8>, s: &[u8])
    ensures
        final(out)@ == old(out)@ + s@,
{
    let mut i: usize = 0;
    while i < s.len()
        invariant
            i <= s@.len(),
            out@ == old(out)@ + s@.take(i as int),
        decreases s@.len() - i,
    {
        out.push(s[i]);
        i += 1;
        assert(out@ =~= old(out)@ + s@.take(i as int));
    }
    assert(out@ =~= old(out)@ + s@);
}

} // verus!
