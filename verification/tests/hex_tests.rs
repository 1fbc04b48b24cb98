use nostr_helper::hexcode::{decode_hex_chars, to_hex};

#[test]
fn to_hex_known_values() {
    assert_eq!(to_hex(&vec![]), "");
    assert_eq!(to_hex(&vec![0x00]), "00");
    assert_eq!(to_hex(&vec![0xff]), "ff");
    assert_eq!(to_hex(&vec![0x00, 0xff, 0x1a]), "00ff1a");
}

#[test]
fn to_hex_matches_reference_encoder() {
    let bytes: Vec<u8> = (0u8..=255).collect();
    assert_eq!(to_hex(&bytes), hex::encode(&bytes));
}

#[test]
fn decode_inverts_encode() {
    let bytes: Vec<u8> = vec![0, 1, 2, 160, 254, 255, 16, 32];
    let text = to_hex(&bytes);
    let chars: Vec<char> = text.chars().collect();
    assert_eq!(decode_hex_chars(&chars), bytes);
}

#[test]
fn decode_accepts_both_cases() {
    let chars: Vec<char> = "aAfF09".chars().collect();
    assert_eq!(decode_hex_chars(&chars), vec![0xaa, 0xff, 0x09]);
}
