//! Key derivation: a 32-byte seed becomes 96 bytes of key material.

use crate::encoding::{
    keypair_public, keypair_secret, lemma_clamped_scalar_decodes, scalar_is_clamped,
    secret_key_decodes, KeypairBytes, KEYPAIR_LENGTH, SEED_LENGTH,
};
use crate::errors::{byte_view, Error};
use crate::schnorr::{ed25519_expansion, expand_to_keypair, public_key_decodes};
use vstd::prelude::*;

verus! {

/// What derivation may return for `seed`.
///
/// A seed of 32 bytes gives the key material that the Ed25519-style
/// expansion assigns to it: the expanded secret key with its scalar
/// clamped, then its public key, both of which decode. Any other seed gives
/// `InvalidSeed`.
pub open spec fn derivation_allows(seed: Seq<u8>, outcome: Result<Seq<u8>, Error>) -> bool {
    match outcome {
        Ok(keypair) => {
            &&& seed.len() == SEED_LENGTH
            &&& keypair.len() == KEYPAIR_LENGTH
            &&& keypair == ed25519_expansion(seed)
            &&& scalar_is_clamped(keypair_secret(keypair))
            &&& secret_key_decodes(keypair_secret(keypair))
            &&& public_key_decodes(keypair_public(keypair))
        },
        Err(error) => seed.len() != SEED_LENGTH && error == Error::InvalidSeed,
    }
}

/// Turns what the expansion handed back into the result of derivation:
/// the key material, or `InvalidSeed` where there is none.
pub fn keypair_outcome(expanded: Option<KeypairBytes>) -> (outcome: Result<KeypairBytes, Error>)
    ensures
        expanded matches Some(keypair) ==> outcome === Ok(keypair),
        expanded is None ==> outcome === Err(Error::InvalidSeed),
{
    match expanded {
        Some(keypair) => Ok(keypair),
        None => Err(Error::InvalidSeed),
    }
}

/// Derives key material from a seed.
///
/// The 96 bytes are the expanded secret key (scalar, then nonce) followed by
/// the public key. The same seed always gives the same bytes.
pub fn sr25519_keypair_from_seed(seed: &[u8]) -> (outcome: Result<KeypairBytes, Error>)
    ensures
        derivation_allows(seed@, byte_view(outcome)),
{
    let expanded = expand_to_keypair(seed);
    proof {
        if let Some(keypair) = expanded {
            lemma_clamped_scalar_decodes(keypair_secret(keypair@));
        }
    }
    keypair_outcome(expanded)
}

} // verus!
