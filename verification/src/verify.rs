//! Verification: a signature, a message and a public key become a verdict.

use crate::context::{context_bytes, signing_context};
use crate::encoding::signature_decodes;
use crate::errors::Error;
use crate::schnorr::{
    public_key_decodes, schnorr_verifies, signature_is_well_formed, verify_simple,
};
use vstd::prelude::*;

verus! {

/// What verification returns.
///
/// A signature that does not decode gives `InvalidSignatureEncoding`,
/// whatever the key is; otherwise a public key that does not decode gives
/// `InvalidPublicKeyEncoding`. Where both decode the verdict is that of the
/// Schnorr equation, `true` or `false`, and never an error.
pub open spec fn verification(signature: Seq<u8>, message: Seq<u8>, public_key: Seq<u8>) -> Result<
    bool,
    Error,
> {
    if !signature_decodes(signature) {
        Err(Error::InvalidSignatureEncoding)
    } else if !public_key_decodes(public_key) {
        Err(Error::InvalidPublicKeyEncoding)
    } else {
        Ok(schnorr_verifies(signing_context(), message, signature, public_key))
    }
}

/// Turns what the verifier handed back into the result of verification.
///
/// `checked` is the verdict, or `None` where a buffer did not decode;
/// `signature_decodes` then tells which buffer it was.
pub fn verification_outcome(signature_decodes: bool, checked: Option<bool>) -> (outcome: Result<
    bool,
    Error,
>)
    ensures
        checked matches Some(holds) ==> outcome === Ok(holds),
        checked is None && !signature_decodes ==> outcome === Err(
            Error::InvalidSignatureEncoding,
        ),
        checked is None && signature_decodes ==> outcome === Err(
            Error::InvalidPublicKeyEncoding,
        ),
{
    match checked {
        Some(holds) => Ok(holds),
        None => if signature_decodes {
            Err(Error::InvalidPublicKeyEncoding)
        } else {
            Err(Error::InvalidSignatureEncoding)
        },
    }
}

/// Verifies `signature` for `message` under `public_key`.
///
/// The message is taken as it is, empty or not; its length must fit in 32
/// bits, which is all the transcript can absorb.
pub fn sr25519_verify(signature: &[u8], message: &[u8], public_key: &[u8]) -> (outcome: Result<
    bool,
    Error,
>)
    requires
        message@.len() <= u32::MAX,
    ensures
        outcome == verification(signature@, message@, public_key@),
{
    let context = context_bytes();
    let decodes = signature_is_well_formed(signature);
    verification_outcome(decodes, verify_simple(context.as_slice(), signature, message, public_key))
}

} // verus!
