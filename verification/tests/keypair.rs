use engi_crypto::encoding::{
    KEYPAIR_LENGTH, PUBLIC_KEY_LENGTH, SECRET_KEY_LENGTH, SEED_LENGTH, SIGNATURE_LENGTH,
};
use engi_crypto::keypair::keypair_outcome;
use engi_crypto::{sr25519_keypair_from_seed, Error};

const ZERO_SEED_KEYPAIR: [u8; 96] = [
    80, 70, 173, 193, 219, 168, 56, 134, 123, 43, 187, 253, 208, 195, 66, 62, 88, 181, 121,
    112, 181, 38, 122, 144, 245, 121, 96, 146, 74, 135, 241, 86, 10, 106, 133, 234, 166, 66,
    218, 200, 53, 66, 75, 93, 124, 141, 99, 124, 0, 64, 140, 122, 115, 218, 103, 43, 127,
    73, 133, 33, 66, 11, 109, 211, 222, 241, 46, 66, 243, 228, 135, 233, 177, 64, 149, 170,
    141, 92, 193, 106, 51, 73, 31, 27, 80, 218, 220, 248, 129, 29, 20, 128, 243, 250, 134,
    39,
];

const ONES_SEED_KEYPAIR: [u8; 96] = [
    88, 232, 110, 251, 117, 250, 78, 44, 65, 15, 70, 225, 109, 233, 246, 172, 174, 26, 23,
    3, 82, 134, 81, 182, 155, 193, 118, 192, 136, 190, 243, 110, 177, 122, 42, 44, 243, 212,
    164, 26, 142, 78, 24, 204, 69, 200, 101, 109, 85, 142, 206, 221, 176, 173, 180, 107,
    250, 8, 138, 95, 83, 190, 210, 82, 24, 157, 172, 41, 41, 109, 49, 129, 77, 200, 197,
    108, 243, 211, 106, 5, 67, 55, 43, 186, 117, 56, 250, 50, 42, 74, 235, 254, 188, 57,
    224, 86,
];

const ALICE_SEED: [u8; 32] = [
    229, 190, 154, 80, 146, 184, 27, 202, 100, 190, 129, 210, 18, 231, 242, 249, 235, 161,
    131, 187, 122, 144, 149, 79, 123, 118, 54, 31, 110, 219, 92, 10,
];

const ALICE_PUBLIC_KEY: [u8; 32] = [
    212, 53, 147, 199, 21, 253, 211, 28, 97, 20, 26, 189, 4, 169, 159, 214, 130, 44, 133,
    88, 133, 76, 205, 227, 154, 86, 132, 231, 165, 109, 162, 125,
];

#[test]
fn buffers_have_their_fixed_lengths() {
    assert_eq!(SEED_LENGTH, 32);
    assert_eq!(SECRET_KEY_LENGTH, 64);
    assert_eq!(PUBLIC_KEY_LENGTH, 32);
    assert_eq!(SIGNATURE_LENGTH, 64);
    assert_eq!(KEYPAIR_LENGTH, SECRET_KEY_LENGTH + PUBLIC_KEY_LENGTH);
}

#[test]
fn zero_seed_gives_known_keypair() {
    assert_eq!(sr25519_keypair_from_seed(&[0u8; 32]), Ok(ZERO_SEED_KEYPAIR));
}

#[test]
fn seed_of_ones_gives_known_keypair() {
    assert_eq!(sr25519_keypair_from_seed(&[1u8; 32]), Ok(ONES_SEED_KEYPAIR));
}

#[test]
fn well_known_seed_gives_well_known_public_key() {
    let keypair = sr25519_keypair_from_seed(&ALICE_SEED).unwrap();
    assert_eq!(keypair[64..], ALICE_PUBLIC_KEY);
}

#[test]
fn derivation_is_deterministic() {
    for byte in [0u8, 1, 7, 128, 255] {
        let seed = [byte; 32];
        let first = sr25519_keypair_from_seed(&seed);
        let second = sr25519_keypair_from_seed(&seed);
        assert!(first.is_ok());
        assert_eq!(first, second);
    }
}

#[test]
fn different_seeds_give_different_keypairs() {
    let mut seed = [0u8; 32];
    let base = sr25519_keypair_from_seed(&seed).unwrap();
    seed[31] = 1;
    let other = sr25519_keypair_from_seed(&seed).unwrap();
    assert_ne!(base[..32], other[..32]);
    assert_ne!(base[32..64], other[32..64]);
    assert_ne!(base[64..], other[64..]);
}

#[test]
fn derived_scalar_is_clamped() {
    for byte in 0u8..=255 {
        let keypair = sr25519_keypair_from_seed(&[byte; 32]).unwrap();
        assert_eq!(keypair[0] & 7, 0);
        assert_eq!(keypair[31] & 192, 64);
    }
}

#[test]
fn seed_of_wrong_length_is_invalid() {
    assert_eq!(sr25519_keypair_from_seed(&[]), Err(Error::InvalidSeed));
    assert_eq!(sr25519_keypair_from_seed(&[0u8; 31]), Err(Error::InvalidSeed));
    assert_eq!(sr25519_keypair_from_seed(&[0u8; 33]), Err(Error::InvalidSeed));
    assert_eq!(sr25519_keypair_from_seed(&[0u8; 64]), Err(Error::InvalidSeed));
}

#[test]
fn keypair_outcome_keeps_the_keypair() {
    assert_eq!(keypair_outcome(Some(ZERO_SEED_KEYPAIR)), Ok(ZERO_SEED_KEYPAIR));
    assert_eq!(keypair_outcome(Some([9u8; 96])), Ok([9u8; 96]));
}

#[test]
fn keypair_outcome_reports_a_missing_keypair() {
    assert_eq!(keypair_outcome(None), Err(Error::InvalidSeed));
}
