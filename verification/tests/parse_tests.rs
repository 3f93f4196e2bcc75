use nft_linkdrop::parse_public_key;

fn expected_key(curve: u8, data: &[u8]) -> Vec<u8> {
    let mut k = vec![curve];
    k.extend_from_slice(data);
    k
}

#[test]
fn parses_bare_base58_as_ed25519() {
    let data = [42u8; 32];
    let msg = format!("\"{}\"", bs58::encode(&data).into_string());
    assert_eq!(parse_public_key(&msg), Some(expected_key(0, &data)));
}

#[test]
fn parses_tagged_ed25519() {
    let mut data = [0u8; 32];
    for (i, b) in data.iter_mut().enumerate() {
        *b = i as u8;
    }
    let msg = format!("\"ed25519:{}\"", bs58::encode(&data).into_string());
    assert_eq!(parse_public_key(&msg), Some(expected_key(0, &data)));
}

#[test]
fn parses_tagged_secp256k1() {
    let data = [5u8; 64];
    let msg = format!("\"secp256k1:{}\"", bs58::encode(&data).into_string());
    assert_eq!(parse_public_key(&msg), Some(expected_key(1, &data)));
}

#[test]
fn rejects_wrong_key_length() {
    let data = [42u8; 31];
    let msg = format!("\"ed25519:{}\"", bs58::encode(&data).into_string());
    assert_eq!(parse_public_key(&msg), None);
    let data = [42u8; 64];
    let msg = format!("\"ed25519:{}\"", bs58::encode(&data).into_string());
    assert_eq!(parse_public_key(&msg), None);
}

#[test]
fn rejects_unknown_curve_tag() {
    let data = [42u8; 32];
    let msg = format!("\"rsa:{}\"", bs58::encode(&data).into_string());
    assert_eq!(parse_public_key(&msg), None);
}

#[test]
fn rejects_text_that_is_not_a_json_string() {
    let data = [42u8; 32];
    // The same key text, but not wrapped as a JSON string.
    let msg = format!("ed25519:{}", bs58::encode(&data).into_string());
    assert_eq!(parse_public_key(&msg), None);
    assert_eq!(parse_public_key(&"[1, 2]".to_string()), None);
    assert_eq!(parse_public_key(&String::new()), None);
}

#[test]
fn rejects_malformed_base58() {
    // `0`, `I`, `O` and `l` are not in the base58 alphabet.
    let msg = "\"ed25519:0OIl\"".to_string();
    assert_eq!(parse_public_key(&msg), None);
}

#[test]
fn json_escapes_are_decoded_before_parsing() {
    let data = [9u8; 32];
    let key_text = format!("ed25519:{}", bs58::encode(&data).into_string());
    // A JSON document produced by a serializer, escapes and all.
    let msg = serde_json::to_string(&key_text).unwrap();
    assert_eq!(parse_public_key(&msg), Some(expected_key(0, &data)));
}
