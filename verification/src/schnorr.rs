//! The calls into `schnorrkel`.
//!
//! Nothing in this file is proved. Each function below makes one call into
//! the outside crate, on bytes and back to bytes, and its contract says what
//! that crate's source shows of the call. What takes pages to state (a point
//! decompression, a hash expansion, the verification equation) has a name
//! here and no definition; what a few lines can state is stated in
//! [`crate::encoding`].

use crate::encoding::{
    keypair_public, keypair_secret, scalar_is_clamped, secret_key_decodes, signature_decodes,
    KeypairBytes, SignatureBytes, PUBLIC_KEY_LENGTH, SEED_LENGTH,
};
use schnorrkel::{ExpansionMode, MiniSecretKey, PublicKey, SecretKey, Signature};
use vstd::prelude::*;

verus! {

/// Whether `PublicKey::from_bytes` accepts these 32 bytes: whether they are
/// the canonical Ristretto encoding of a group element.
pub uninterp spec fn ristretto_decodes(bytes: Seq<u8>) -> bool;

/// The 96 bytes that `MiniSecretKey::expand_to_keypair` yields in Ed25519
/// mode for a 32-byte seed, laid out by `Keypair::to_half_ed25519_bytes`.
pub uninterp spec fn ed25519_expansion(seed: Seq<u8>) -> Seq<u8>;

/// Whether `PublicKey::verify_simple` accepts `signature` for `message`
/// under `context`: whether the Schnorr equation holds of the decoded
/// signature and key.
pub uninterp spec fn schnorr_verifies(
    context: Seq<u8>,
    message: Seq<u8>,
    signature: Seq<u8>,
    public_key: Seq<u8>,
) -> bool;

/// Whether `public_key` is the encoding of a public key: 32 bytes that
/// decompress to a group element.
pub open spec fn public_key_decodes(public_key: Seq<u8>) -> bool {
    &&& public_key.len() == PUBLIC_KEY_LENGTH
    &&& ristretto_decodes(public_key)
}

/// Whether `keypair` is what some seed expands to.
pub open spec fn expanded_keypair(keypair: Seq<u8>) -> bool {
    exists|seed: Seq<u8>| seed.len() == SEED_LENGTH && #[trigger] ed25519_expansion(seed) == keypair
}

/// `MiniSecretKey::from_bytes`, then `expand_to_keypair` in Ed25519 mode,
/// written out by `to_half_ed25519_bytes`.
///
/// Assumed: the seed is refused exactly when it is not 32 bytes long, and
/// the outcome depends on the seed alone. Assumed of every keypair that
/// comes out: its scalar is clamped, because the expansion clamps half of a
/// hash and divides it by 8, and `to_half_ed25519_bytes` multiplies it by 8
/// again; and its public half decodes, because it was written by
/// compressing a group element.
#[verifier::external_body]
pub(crate) fn expand_to_keypair(seed: &[u8]) -> (expanded: Option<KeypairBytes>)
    ensures
        expanded is Some <==> seed@.len() == SEED_LENGTH,
        expanded matches Some(keypair) ==> keypair@ == ed25519_expansion(seed@),
        expanded matches Some(keypair) ==> scalar_is_clamped(keypair_secret(keypair@)),
        expanded matches Some(keypair) ==> ristretto_decodes(keypair_public(keypair@)),
{
    match MiniSecretKey::from_bytes(seed) {
        Ok(mini) => Some(mini.expand_to_keypair(ExpansionMode::Ed25519).to_half_ed25519_bytes()),
        Err(_) => None,
    }
}

/// `SecretKey::sign_simple`, on a secret key read by
/// `SecretKey::from_ed25519_bytes` and a public key read by
/// `PublicKey::from_bytes`, written out by `Signature::to_bytes`.
///
/// The nonce is drawn from the secret's nonce half, the transcript and the
/// system's random source, so two calls on one input give different
/// signatures: the contract speaks of every signature that may come back.
///
/// Assumed: `None` comes back exactly when one of the two keys does not
/// decode; the secret key decodes when it is 64 bytes long and its first
/// half, divided by 8, is a scalar below the group order. Assumed of every
/// signature: it decodes again, since the response is a reduced scalar and
/// `to_bytes` sets the marker; and where the two keys are the halves of an
/// expanded seed, it verifies under that public key. The crate's
/// documentation asserts as much of every signature that a keypair makes;
/// it is the identity `s·B - k·(x·B) = r·B` of Schnorr signatures.
///
/// The transcript refuses a context or message of more than `u32::MAX`
/// bytes by panicking, and the call cannot return where the system has no
/// random source.
#[verifier::external_body]
pub(crate) fn sign_simple(
    context: &[u8],
    secret: &[u8],
    public_key: &[u8],
    message: &[u8],
) -> (signed: Option<SignatureBytes>)
    requires
        context@.len() <= u32::MAX,
        message@.len() <= u32::MAX,
    ensures
        signed is Some <==> (secret_key_decodes(secret@) && public_key_decodes(public_key@)),
        signed matches Some(signature) ==> signature_decodes(signature@),
        signed matches Some(signature) ==> (expanded_keypair(secret@ + public_key@)
            ==> schnorr_verifies(context@, message@, signature@, public_key@)),
{
    match (SecretKey::from_ed25519_bytes(secret), PublicKey::from_bytes(public_key)) {
        (Ok(key), Ok(public)) => Some(key.sign_simple(context, message, &public).to_bytes()),
        _ => None,
    }
}

/// `PublicKey::verify_simple`, on a signature read by `Signature::from_bytes`
/// and a public key read by `PublicKey::from_bytes`.
///
/// Assumed: `None` comes back exactly when one of the two buffers does not
/// decode, and otherwise the answer depends on the four byte strings alone.
///
/// The transcript refuses a context or message of more than `u32::MAX`
/// bytes by panicking.
#[verifier::external_body]
pub(crate) fn verify_simple(
    context: &[u8],
    signature: &[u8],
    message: &[u8],
    public_key: &[u8],
) -> (checked: Option<bool>)
    requires
        context@.len() <= u32::MAX,
        message@.len() <= u32::MAX,
    ensures
        checked is Some <==> (signature_decodes(signature@) && public_key_decodes(public_key@)),
        checked matches Some(holds) ==> holds == schnorr_verifies(
            context@,
            message@,
            signature@,
            public_key@,
        ),
{
    match (Signature::from_bytes(signature), PublicKey::from_bytes(public_key)) {
        (Ok(decoded), Ok(public)) => {
            Some(public.verify_simple(context, message, &decoded).is_ok())
        },
        _ => None,
    }
}

/// `Signature::from_bytes`, asked only whether it succeeds.
///
/// Assumed: it succeeds exactly on 64 bytes whose last byte has the top bit
/// set and whose second half, with that bit cleared, is a scalar below the
/// group order.
#[verifier::external_body]
pub(crate) fn signature_is_well_formed(signature: &[u8]) -> (decodes: bool)
    ensures
        decodes == signature_decodes(signature@),
{
    Signature::from_bytes(signature).is_ok()
}

} // verus!
