//! The byte layouts of seeds, keys and signatures, as mathematics.
//!
//! What a buffer spells as a number, where the halves of a keypair lie, which
//! secret keys and signatures decode, and why a clamped scalar always does.

use vstd::prelude::*;

verus! {

/// Bytes in a seed.
pub const SEED_LENGTH: usize = 32;

/// Bytes in an expanded secret key: the scalar, then the nonce.
pub const SECRET_KEY_LENGTH: usize = 64;

/// Bytes in a public key: one compressed group element.
pub const PUBLIC_KEY_LENGTH: usize = 32;

/// Bytes in keypair material: the expanded secret key, then the public key.
pub const KEYPAIR_LENGTH: usize = 96;

/// Bytes in a signature: the commitment `R`, then the response `s`.
pub const SIGNATURE_LENGTH: usize = 64;

/// Keypair material as the operations hand it out.
pub type KeypairBytes = [u8; KEYPAIR_LENGTH];

/// A signature as the operations hand it out.
pub type SignatureBytes = [u8; SIGNATURE_LENGTH];

/// The number that `bytes` spells, least significant byte first.
pub open spec fn le_value(bytes: Seq<u8>) -> nat
    decreases bytes.len(),
{
    if bytes.len() == 0 {
        0
    } else {
        bytes[0] as nat + 256 * le_value(bytes.drop_first())
    }
}

/// The order of the Ristretto group: 2^252 + 27742317777372353535851937790883648493.
pub open spec fn group_order() -> nat {
    0x1000000000000000000000000000000014def9dea2f79cd65812631a5cf5d3ednat
}

/// The expanded secret key inside keypair material.
pub open spec fn keypair_secret(keypair: Seq<u8>) -> Seq<u8> {
    keypair.subrange(0, 64)
}

/// The public key inside keypair material.
pub open spec fn keypair_public(keypair: Seq<u8>) -> Seq<u8> {
    keypair.subrange(64, 96)
}

/// The signing scalar that an expanded secret key carries.
///
/// The first 32 bytes hold eight times the scalar, as Ed25519 keeps it; the
/// scalar is that number divided by the cofactor 8, rounded down.
pub open spec fn secret_scalar(secret: Seq<u8>) -> nat {
    le_value(secret.subrange(0, 32)) / 8
}

/// Whether `secret` is the encoding of an expanded secret key: 64 bytes
/// whose scalar lies below the group order. The nonce half is free.
pub open spec fn secret_key_decodes(secret: Seq<u8>) -> bool {
    &&& secret.len() == SECRET_KEY_LENGTH
    &&& secret_scalar(secret) < group_order()
}

/// Whether the scalar of an expanded secret key is clamped as Ed25519 clamps
/// it: the three lowest bits clear, the highest bit clear, the one below set.
pub open spec fn scalar_is_clamped(secret: Seq<u8>) -> bool {
    &&& secret[0] & 7 == 0
    &&& secret[31] & 192 == 64
}

/// Whether a 64-byte signature carries the marker: the top bit of its last
/// byte, which tells these signatures from Ed25519 ones.
pub open spec fn signature_marked(signature: Seq<u8>) -> bool {
    signature[63] & 128 != 0
}

/// The response scalar of a 64-byte signature: its second half, without the
/// marker bit.
pub open spec fn signature_scalar(signature: Seq<u8>) -> nat {
    le_value(signature.subrange(32, 64).update(31, signature[63] & 127))
}

/// Whether `signature` is the encoding of a signature: 64 bytes with the
/// marker set and a response scalar below the group order.
///
/// The commitment half is not looked at: a commitment that is no group
/// element makes a signature that decodes and then fails to verify.
pub open spec fn signature_decodes(signature: Seq<u8>) -> bool {
    &&& signature.len() == SIGNATURE_LENGTH
    &&& signature_marked(signature)
    &&& signature_scalar(signature) < group_order()
}

/// 256 to the power `digits`: the number of values that `digits` bytes spell.
pub open spec fn byte_range(digits: nat) -> nat
    decreases digits,
{
    if digits == 0 {
        1
    } else {
        256 * byte_range((digits - 1) as nat)
    }
}

/// The last byte weighs 256 to the number of bytes before it.
pub proof fn lemma_le_value_last(bytes: Seq<u8>)
    requires
        bytes.len() > 0,
    ensures
        le_value(bytes) == le_value(bytes.drop_last()) + byte_range((bytes.len() - 1) as nat)
            * bytes.last(),
    decreases bytes.len(),
{
    let last = bytes.last() as int;
    if bytes.len() == 1 {
        assert(le_value(bytes.drop_first()) == 0);
        assert(le_value(bytes.drop_last()) == 0);
        assert(byte_range(0) * last == last) by (nonlinear_arith)
            requires
                byte_range(0) == 1,
        ;
    } else {
        let tail = bytes.drop_first();
        let front = bytes.drop_last();
        let weight = byte_range((tail.len() - 1) as nat) as int;
        lemma_le_value_last(tail);
        assert(tail.drop_last() =~= front.drop_first());
        assert(le_value(front) == bytes[0] + 256 * le_value(front.drop_first()));
        assert(byte_range((bytes.len() - 1) as nat) * last == 256 * (weight * last))
            by (nonlinear_arith)
            requires
                byte_range((bytes.len() - 1) as nat) == 256 * weight,
        ;
    }
}

/// `n` bytes spell a number below 256 to the `n`.
pub proof fn lemma_le_value_below_range(bytes: Seq<u8>)
    ensures
        le_value(bytes) < byte_range(bytes.len()),
    decreases bytes.len(),
{
    if bytes.len() > 0 {
        lemma_le_value_below_range(bytes.drop_first());
    }
}

/// A clamped scalar decodes: 32 bytes whose two highest bits are 0 and 1
/// spell a number from 2^254 up to 2^255, and an eighth of that lies from
/// 2^251 up to 2^252, below the group order.
pub proof fn lemma_clamped_scalar_decodes(secret: Seq<u8>)
    requires
        secret.len() == SECRET_KEY_LENGTH,
        scalar_is_clamped(secret),
    ensures
        secret_key_decodes(secret),
        0x800000000000000000000000000000000000000000000000000000000000000 <= secret_scalar(secret),
        secret_scalar(secret) < 0x1000000000000000000000000000000000000000000000000000000000000000,
{
    let scalar = secret.subrange(0, 32);
    let top = scalar.last();
    assert(top & 192 == 64 ==> 64 <= top < 128) by (bit_vector);
    lemma_le_value_last(scalar);
    lemma_le_value_below_range(scalar.drop_last());
    reveal_with_fuel(byte_range, 32);
    assert(byte_range(31) == 0x100000000000000000000000000000000000000000000000000000000000000nat);
    assert(byte_range(31) * 64 <= byte_range(31) * top <= byte_range(31) * 127)
        by (nonlinear_arith)
        requires
            64 <= top <= 127,
    ;
}

} // verus!
