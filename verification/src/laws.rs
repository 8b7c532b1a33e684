//! What holds of the three operations together.
//!
//! Each law is stated over the contracts of the operations: it holds of
//! every result that those contracts allow.

use crate::encoding::{
    group_order, keypair_public, keypair_secret, secret_key_decodes, signature_decodes,
    signature_marked, signature_scalar, SEED_LENGTH, SIGNATURE_LENGTH,
};
use crate::errors::Error;
use crate::keypair::derivation_allows;
use crate::schnorr::{expanded_keypair, public_key_decodes};
use crate::sign::signing_allows;
use crate::verify::verification;
use vstd::prelude::*;

verus! {

/// Derivation is a function of the seed: two derivations from the same seed
/// end alike, with the same 96 bytes or with the same error.
pub proof fn lemma_derivation_is_deterministic(
    seed: Seq<u8>,
    first: Result<Seq<u8>, Error>,
    second: Result<Seq<u8>, Error>,
)
    requires
        derivation_allows(seed, first),
        derivation_allows(seed, second),
    ensures
        first == second,
{
}

/// Every seed of 32 bytes is accepted, and no other.
pub proof fn lemma_derivation_succeeds(seed: Seq<u8>, outcome: Result<Seq<u8>, Error>)
    requires
        derivation_allows(seed, outcome),
    ensures
        outcome is Ok <==> seed.len() == SEED_LENGTH,
{
}

/// Round trip: a message signed with the key material derived from a seed
/// verifies under the public key derived from that seed.
///
/// Signing with derived key material never fails, and whatever signature it
/// returns, for whatever message, verification answers `Ok(true)`.
pub proof fn lemma_sign_verify_round_trip(
    seed: Seq<u8>,
    message: Seq<u8>,
    keypair: Seq<u8>,
    signed: Result<Seq<u8>, Error>,
)
    requires
        derivation_allows(seed, Ok(keypair)),
        signing_allows(keypair_public(keypair), keypair_secret(keypair), message, signed),
    ensures
        signed is Ok,
        verification(signed->Ok_0, message, keypair_public(keypair)) === Ok(true),
{
    assert(keypair_secret(keypair) + keypair_public(keypair) =~= keypair);
    assert(expanded_keypair(keypair));
}

/// The empty message is a message like any other: signed with derived key
/// material, it verifies.
pub proof fn lemma_empty_message_round_trip(
    seed: Seq<u8>,
    keypair: Seq<u8>,
    signed: Result<Seq<u8>, Error>,
)
    requires
        derivation_allows(seed, Ok(keypair)),
        signing_allows(
            keypair_public(keypair),
            keypair_secret(keypair),
            Seq::<u8>::empty(),
            signed,
        ),
    ensures
        signed is Ok,
        verification(signed->Ok_0, Seq::<u8>::empty(), keypair_public(keypair)) === Ok(true),
{
    lemma_sign_verify_round_trip(seed, Seq::<u8>::empty(), keypair, signed);
}

/// A signature that the signer returned is never reported as malformed:
/// held against any message and any public key that decodes, it gets a
/// verdict, `true` or `false`.
pub proof fn lemma_signed_output_gets_a_verdict(
    public_key: Seq<u8>,
    secret: Seq<u8>,
    message: Seq<u8>,
    signature: Seq<u8>,
    other_message: Seq<u8>,
    other_key: Seq<u8>,
)
    requires
        signing_allows(public_key, secret, message, Ok(signature)),
        public_key_decodes(other_key),
    ensures
        verification(signature, other_message, other_key) is Ok,
{
}

/// Verification fails with an error for malformed input only: where both
/// buffers decode it answers `true` or `false`, and where one does not it
/// never does.
pub proof fn lemma_errors_are_for_malformed_input_only(
    signature: Seq<u8>,
    message: Seq<u8>,
    public_key: Seq<u8>,
)
    ensures
        verification(signature, message, public_key) is Ok <==> signature_decodes(signature)
            && public_key_decodes(public_key),
{
}

/// A malformed signature is reported as such, never answered with `false`:
/// one of the wrong length, one without the marker bit, or one whose
/// response scalar is not below the group order.
pub proof fn lemma_malformed_signature_is_reported(
    signature: Seq<u8>,
    message: Seq<u8>,
    public_key: Seq<u8>,
)
    requires
        signature.len() != SIGNATURE_LENGTH || !signature_marked(signature) || signature_scalar(
            signature,
        ) >= group_order(),
    ensures
        verification(signature, message, public_key) === Err(Error::InvalidSignatureEncoding),
{
}

/// A public key that does not decode is never answered with `false`: the
/// verifier reports it, as the key's fault whenever the signature itself
/// decodes.
pub proof fn lemma_malformed_public_key_is_reported(
    signature: Seq<u8>,
    message: Seq<u8>,
    public_key: Seq<u8>,
)
    requires
        !public_key_decodes(public_key),
    ensures
        verification(signature, message, public_key) is Err,
        signature_decodes(signature) ==> verification(signature, message, public_key) === Err(
            Error::InvalidPublicKeyEncoding,
        ),
{
}

/// Key material that does not decode is never signed with: whichever of the
/// two keys is at fault, the signer reports `InvalidKeyMaterial`.
pub proof fn lemma_malformed_key_material_is_reported(
    public_key: Seq<u8>,
    secret: Seq<u8>,
    message: Seq<u8>,
    signed: Result<Seq<u8>, Error>,
)
    requires
        !secret_key_decodes(secret) || !public_key_decodes(public_key),
        signing_allows(public_key, secret, message, signed),
    ensures
        signed === Err(Error::InvalidKeyMaterial),
{
}

} // verus!
