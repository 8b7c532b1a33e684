//! The errors of the three operations.

use vstd::prelude::*;

verus! {

/// Why an operation refused its input.
///
/// A signature that is well formed but does not match its message and key is
/// no error: verification returns `Ok(false)` for it.
#[derive(Debug, Clone, Copy, PartialEq, Eq, Structural)]
pub enum Error {
    /// The seed cannot be read as a mini secret key.
    InvalidSeed,
    /// The secret key or the public key handed to the signer does not decode.
    InvalidKeyMaterial,
    /// The signature handed to the verifier does not decode.
    InvalidSignatureEncoding,
    /// The public key handed to the verifier does not decode.
    InvalidPublicKeyEncoding,
}

/// An outcome with its bytes read as a sequence, for use in contracts.
pub open spec fn byte_view<const N: usize>(outcome: Result<[u8; N], Error>) -> Result<
    Seq<u8>,
    Error,
> {
    match outcome {
        Ok(bytes) => Ok(bytes@),
        Err(error) => Err(error),
    }
}

} // verus!
