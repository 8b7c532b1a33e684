//! sr25519: Schnorr signatures over the Ristretto group, on fixed-size byte buffers.
//!
//! Three stateless operations make up the whole interface: a 32-byte seed is
//! expanded into 96 bytes of key material, key material signs a message, and
//! a signature is verified against a message and a public key. Every buffer
//! that does not decode is reported with a typed error; a signature that
//! decodes but does not match is an ordinary `false`.
//!
//! The curve arithmetic, the point encoding and the transcript hash belong to
//! the `schnorrkel` crate. They are reached through the few functions of
//! [`schnorr`], whose contracts are assumed, not proved.

pub mod context;
pub mod encoding;
pub mod errors;
pub mod keypair;
pub mod laws;
pub mod schnorr;
pub mod sign;
pub mod verify;

pub use errors::Error;
pub use keypair::sr25519_keypair_from_seed;
pub use sign::sr25519_sign;
pub use verify::sr25519_verify;
