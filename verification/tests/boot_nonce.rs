use bamep::trusted_bootstrap::boot_nonce::{
    BootNonce, BootNonceError, BOOT_NONCE_BYTES, BOOT_NONCE_WIRE_LEN,
};

#[test]
fn thirty_two_bytes_are_preserved_exactly() {
    let bytes = [7u8; BOOT_NONCE_BYTES];
    let nonce = BootNonce::from_bytes(bytes);
    assert_eq!(nonce.as_bytes(), &bytes);
}

#[test]
fn canonical_wire_round_trips() {
    let nonce = BootNonce::from_bytes([9u8; BOOT_NONCE_BYTES]);
    let wire = nonce.to_wire_value();
    assert_eq!(wire.len(), BOOT_NONCE_WIRE_LEN);
    let parsed = BootNonce::parse_wire_value(&wire).expect("canonical wire value parses");
    assert_eq!(parsed, nonce);
}

#[test]
fn generate_produces_a_parseable_canonical_wire_value() {
    let nonce = BootNonce::generate().expect("OS CSPRNG must be available in tests");
    let wire = nonce.to_wire_value();
    assert_eq!(BootNonce::parse_wire_value(&wire), Ok(nonce));
}

#[test]
fn padding_is_rejected() {
    let nonce = BootNonce::from_bytes([1u8; BOOT_NONCE_BYTES]);
    let mut wire = nonce.to_wire_value();
    wire.push('=');
    assert_eq!(
        BootNonce::parse_wire_value(&wire),
        Err(BootNonceError::WireLength)
    );
}

#[test]
fn standard_base64_alphabet_is_rejected() {
    let mut wire: Vec<u8> = vec![b'A'; BOOT_NONCE_WIRE_LEN];
    wire[0] = b'+';
    wire[1] = b'/';
    let wire = String::from_utf8(wire).unwrap();
    assert_eq!(
        BootNonce::parse_wire_value(&wire),
        Err(BootNonceError::InvalidCharacters)
    );
}

#[test]
fn whitespace_is_rejected() {
    let nonce = BootNonce::from_bytes([2u8; BOOT_NONCE_BYTES]);
    let mut wire = nonce.to_wire_value();
    wire.replace_range(0..1, " ");
    assert_eq!(
        BootNonce::parse_wire_value(&wire),
        Err(BootNonceError::InvalidCharacters)
    );
}

#[test]
fn wrong_length_is_rejected() {
    assert_eq!(
        BootNonce::parse_wire_value("short"),
        Err(BootNonceError::WireLength)
    );
}

#[test]
fn non_canonical_trailing_bits_are_rejected() {
    let nonce = BootNonce::from_bytes([0u8; BOOT_NONCE_BYTES]);
    let mut wire = nonce.to_wire_value();
    assert_eq!(wire.pop(), Some('A'));
    wire.push('B');
    assert_eq!(
        BootNonce::parse_wire_value(&wire),
        Err(BootNonceError::InvalidEncoding)
    );
}

#[test]
fn zero_nonce_has_exact_wire_value() {
    let nonce = BootNonce::from_bytes([0u8; 32]);
    assert_eq!(nonce.to_wire_value(), "A".repeat(43));
}

#[test]
fn non_ascii_text_of_canonical_byte_length_is_rejected_by_alphabet() {
    // 41 ASCII letters plus one two-byte character: 43 bytes, 42 characters.
    let wire = format!("{}é", "A".repeat(41));
    assert_eq!(wire.len(), 43);
    assert_eq!(
        BootNonce::parse_wire_value(&wire),
        Err(BootNonceError::InvalidCharacters)
    );
}
