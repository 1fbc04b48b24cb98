use std::collections::HashSet;

use nostr_helper::errors::Error;
use nostr_helper::keys::{generate, import_secret};

// NIP-19 reference vector: the bech32-style secret and its hexadecimal form.
const NSEC_VECTOR: &str = "nsec1vl029mgpspedva04g90vltkh6fvh240zqtv9k0t9af8935ke9laqsnlfe5";
const NSEC_VECTOR_HEX: &str = "67dea2ed018072d675f5415ecfaed7d2597555e202d85b3d65ea4e58d2d92ffa";

// The x-only public key of the secret scalar 1 is the curve generator's x
// coordinate.
const ONE_HEX: &str = "0000000000000000000000000000000000000000000000000000000000000001";
const GENERATOR_X_HEX: &str = "79be667ef9dcbbac55a06295ce870b07029bfcdb2dce28d959f2815b16f81798";

#[test]
fn hex_round_trip_through_import() {
    let kp = generate();
    let hex_secret = kp.secret_hex();
    let kp2 = import_secret(&hex_secret).expect("a generated secret imports");
    assert_eq!(kp.secret_bytes(), kp2.secret_bytes());
    assert_eq!(kp.public_hex(), kp2.public_hex());
}

#[test]
fn import_known_scalar_derives_generator() {
    let kp = import_secret(ONE_HEX).expect("the scalar one is valid");
    assert_eq!(kp.public_hex(), GENERATOR_X_HEX);
}

#[test]
fn import_nsec_vector_matches_hex_vector() {
    let from_nsec = import_secret(NSEC_VECTOR).expect("the reference nsec imports");
    let from_hex = import_secret(NSEC_VECTOR_HEX).expect("the reference hex imports");
    assert_eq!(from_nsec.secret_hex(), NSEC_VECTOR_HEX);
    assert_eq!(from_nsec.public_hex(), from_hex.public_hex());
}

#[test]
fn import_accepts_uppercase_hex() {
    let upper = NSEC_VECTOR_HEX.to_uppercase();
    let kp = import_secret(&upper).expect("uppercase hex imports");
    assert_eq!(kp.secret_hex(), NSEC_VECTOR_HEX);
}

#[test]
fn import_rejects_non_hex_text() {
    assert!(matches!(import_secret(&"g".repeat(64)), Err(Error::InvalidKeyFormat)));
    assert!(matches!(import_secret("hello world!"), Err(Error::InvalidKeyFormat)));
}

#[test]
fn import_rejects_odd_length_hex() {
    assert!(matches!(import_secret("abc"), Err(Error::InvalidKeyFormat)));
    assert!(matches!(import_secret(&"a".repeat(63)), Err(Error::InvalidKeyFormat)));
}

#[test]
fn import_rejects_wrong_length_hex() {
    assert!(matches!(import_secret(""), Err(Error::InvalidKeyLength)));
    assert!(matches!(import_secret(&"a".repeat(62)), Err(Error::InvalidKeyLength)));
    assert!(matches!(import_secret(&"a".repeat(66)), Err(Error::InvalidKeyLength)));
}

#[test]
fn import_rejects_invalid_scalars() {
    // Zero and the all-ones string are no valid scalars for the curve.
    assert!(matches!(import_secret(&"0".repeat(64)), Err(Error::InvalidKeyValue)));
    assert!(matches!(import_secret(&"f".repeat(64)), Err(Error::InvalidKeyValue)));
}

#[test]
fn import_rejects_malformed_bech32() {
    assert!(matches!(import_secret("nsec1"), Err(Error::InvalidKeyFormat)));
    assert!(matches!(import_secret("nsec1qqqqqqqq"), Err(Error::InvalidKeyFormat)));
    // A valid checksum with one character flipped.
    let mut flipped = String::from(NSEC_VECTOR);
    flipped.pop();
    flipped.push('4');
    assert!(matches!(import_secret(&flipped), Err(Error::InvalidKeyFormat)));
}

#[test]
fn import_rejects_wrong_bech32_prefix() {
    // Well-formed bech32 whose human-readable part begins with "nsec" but
    // is not exactly "nsec".
    let hrp = bech32::Hrp::parse("nsect").unwrap();
    let encoded = bech32::encode::<bech32::Bech32>(hrp, &[7u8; 32]).unwrap();
    assert!(matches!(import_secret(&encoded), Err(Error::InvalidKeyFormat)));
}

#[test]
fn import_rejects_short_bech32_payload() {
    let hrp = bech32::Hrp::parse("nsec").unwrap();
    let encoded = bech32::encode::<bech32::Bech32>(hrp, &[7u8; 20]).unwrap();
    assert!(matches!(import_secret(&encoded), Err(Error::InvalidKeyLength)));
}

#[test]
fn import_rejects_invalid_bech32_scalar() {
    let hrp = bech32::Hrp::parse("nsec").unwrap();
    let encoded = bech32::encode::<bech32::Bech32>(hrp, &[0u8; 32]).unwrap();
    assert!(matches!(import_secret(&encoded), Err(Error::InvalidKeyValue)));
}

#[test]
fn generated_secrets_do_not_collide() {
    let mut seen: HashSet<String> = HashSet::new();
    for _ in 0..10_000 {
        let kp = generate();
        assert!(seen.insert(kp.secret_hex()), "two generated secrets were equal");
    }
}
