//! Signing: key material and a message become a 64-byte signature.

use crate::context::{context_bytes, signing_context};
use crate::encoding::{secret_key_decodes, signature_decodes, SignatureBytes};
use crate::errors::{byte_view, Error};
use crate::schnorr::{expanded_keypair, public_key_decodes, schnorr_verifies, sign_simple};
use vstd::prelude::*;

verus! {

/// What signing may return for the two keys and the message.
///
/// Signing draws a fresh nonce on every call, so it has no single result.
/// Whatever comes back obeys this: a signature comes back exactly when both
/// keys decode, it decodes itself, and where the keys are the two halves of
/// an expanded seed it verifies for this message under this public key.
/// Keys that do not decode give `InvalidKeyMaterial`.
pub open spec fn signing_allows(
    public_key: Seq<u8>,
    secret: Seq<u8>,
    message: Seq<u8>,
    outcome: Result<Seq<u8>, Error>,
) -> bool {
    match outcome {
        Ok(signature) => {
            &&& secret_key_decodes(secret)
            &&& public_key_decodes(public_key)
            &&& signature_decodes(signature)
            &&& expanded_keypair(secret + public_key) ==> schnorr_verifies(
                signing_context(),
                message,
                signature,
                public_key,
            )
        },
        Err(error) => {
            &&& error == Error::InvalidKeyMaterial
            &&& !(secret_key_decodes(secret) && public_key_decodes(public_key))
        },
    }
}

/// Turns what the signer handed back into the result of signing: the
/// signature, or `InvalidKeyMaterial` where there is none.
pub fn signature_outcome(signed: Option<SignatureBytes>) -> (outcome: Result<SignatureBytes, Error>)
    ensures
        signed matches Some(signature) ==> outcome === Ok(signature),
        signed is None ==> outcome === Err(Error::InvalidKeyMaterial),
{
    match signed {
        Some(signature) => Ok(signature),
        None => Err(Error::InvalidKeyMaterial),
    }
}

/// Signs `message` with an expanded secret key and the public key that
/// belongs to it.
///
/// The message is taken as it is, empty or not; its length must fit in 32
/// bits, which is all the transcript can absorb.
pub fn sr25519_sign(public_key: &[u8], secret: &[u8], message: &[u8]) -> (outcome: Result<
    SignatureBytes,
    Error,
>)
    requires
        message@.len() <= u32::MAX,
    ensures
        signing_allows(public_key@, secret@, message@, byte_view(outcome)),
{
    let context = context_bytes();
    signature_outcome(sign_simple(context.as_slice(), secret, public_key, message))
}

} // verus!
