//! Decoding a one-time credential public key from the message that arrives
//! with an inbound asset transfer. The message is a JSON string whose content
//! is `[<curve>:]<base58-data>`: the curve tag is `ed25519` (the default when
//! no tag is present, 32 bytes of key data) or `secp256k1` (64 bytes). The
//! decoded key is carried as a byte vector holding the curve code followed by
//! the key data.

use vstd::prelude::*;

use crate::bytes::bytes_eq;
use crate::bytes::find_byte;
use crate::bytes::find_byte_index;
use crate::bytes::sub_vec;

verus! {

/// The UTF-8 bytes of the string a JSON document denotes, when the document
/// is exactly one JSON string.
pub uninterp spec fn json_string_bytes_of(msg: Seq<char>) -> Option<Seq<u8>>;

/// Relies on serde_json::from_str::<String>: parses a document that must be
/// exactly one JSON string; the result depends on the input text alone.
#[verifier::external_body]
fn parse_json_string(msg: &String) -> (r: Option<Vec<u8>>)
    ensures
        (r is Some) == (json_string_bytes_of(msg@) is Some),
        r matches Some(v) ==> json_string_bytes_of(msg@) == Some(v@),
{
    match serde_json::from_str::<String>(msg) {
        Ok(s) => Some(s.into_bytes()),
        Err(_) => None,
    }
}

/// The bytes a base58 text (Bitcoin alphabet) denotes, when it is well-formed.
pub uninterp spec fn base58_bytes_of(text: Seq<u8>) -> Option<Seq<u8>>;

/// Relies on bs58::decode with the default (Bitcoin) alphabet: the decoded
/// bytes depend on the input text alone.
#[verifier::external_body]
fn base58_decode(text: &Vec<u8>) -> (r: Option<Vec<u8>>)
    ensures
        (r is Some) == (base58_bytes_of(text@) is Some),
        r matches Some(v) ==> base58_bytes_of(text@) == Some(v@),
{
    match bs58::decode(text.as_slice()).into_vec() {
        Ok(v) => Some(v),
        Err(_) => None,
    }
}

/// Curve code of the `ed25519` tag.
pub const CURVE_ED25519: u8 = 0;

/// Curve code of the `secp256k1` tag.
pub const CURVE_SECP256K1: u8 = 1;

/// The ASCII bytes of `ed25519`.
pub open spec fn ed25519_tag() -> Seq<u8> {
    seq![101u8, 100u8, 50u8, 53u8, 53u8, 49u8, 57u8]
}

/// The ASCII bytes of `secp256k1`.
pub open spec fn secp256k1_tag() -> Seq<u8> {
    seq![115u8, 101u8, 99u8, 112u8, 50u8, 53u8, 54u8, 107u8, 49u8]
}

/// The curve a tag names, if any.
pub open spec fn curve_of_tag(tag: Seq<u8>) -> Option<u8> {
    if tag == ed25519_tag() {
        Some(CURVE_ED25519)
    } else if tag == secp256k1_tag() {
        Some(CURVE_SECP256K1)
    } else {
        None
    }
}

/// The length of a curve's raw key data.
pub open spec fn key_data_len(curve: u8) -> int {
    if curve == CURVE_ED25519 {
        32
    } else {
        64
    }
}

/// The credential key a decoded message body denotes: an optional curve tag
/// before a `:`, then base58 key data of the curve's exact length. The key is
/// the curve code followed by the data.
pub open spec fn parse_key_bytes(s: Seq<u8>) -> Option<Seq<u8>> {
    let parts = match find_byte(s, 58) {
        None => Some((CURVE_ED25519, s)),
        Some(i) => match curve_of_tag(s.subrange(0, i)) {
            None => None,
            Some(curve) => Some((curve, s.subrange(i + 1, s.len() as int))),
        },
    };
    match parts {
        None => None,
        Some((curve, text)) => match base58_bytes_of(text) {
            None => None,
            Some(data) => if data.len() == key_data_len(curve) {
                Some(seq![curve] + data)
            } else {
                None
            },
        },
    }
}

/// The credential key an inbound message denotes, if the message is a JSON
/// string holding a well-formed key.
pub open spec fn key_of_msg(msg: Seq<char>) -> Option<Seq<u8>> {
    match json_string_bytes_of(msg) {
        None => None,
        Some(body) => parse_key_bytes(body),
    }
}

/// Decides whether a tag names a curve, and which.
fn curve_of_tag_exec(tag: &Vec<u8>) -> (r: Option<u8>)
    ensures
        r == curve_of_tag(tag@),
{
    let ed: Vec<u8> = vec![101u8, 100u8, 50u8, 53u8, 53u8, 49u8, 57u8];
    let secp: Vec<u8> = vec![115u8, 101u8, 99u8, 112u8, 50u8, 53u8, 54u8, 107u8, 49u8];
    proof {
        assert(ed@ =~= ed25519_tag());
        assert(secp@ =~= secp256k1_tag());
    }
    if bytes_eq(tag, &ed) {
        Some(CURVE_ED25519)
    } else if bytes_eq(tag, &secp) {
        Some(CURVE_SECP256K1)
    } else {
        None
    }
}

/// Decodes the credential public key an inbound message denotes, if any.
pub fn parse_public_key(msg: &String) -> (r: Option<Vec<u8>>)
    ensures
        (r is Some) == (key_of_msg(msg@) is Some),
        r matches Some(k) ==> key_of_msg(msg@) == Some(k@),
{
    let body = match parse_json_string(msg) {
        None => {
            return None;
        },
        Some(b) => b,
    };
    let (curve, text): (u8, Vec<u8>) = match find_byte_index(&body, 58) {
        None => (CURVE_ED25519, body),
        Some(i) => {
            let tag = sub_vec(&body, 0, i);
            let curve = match curve_of_tag_exec(&tag) {
                None => {
                    return None;
                },
                Some(c) => c,
            };
            let text = sub_vec(&body, i + 1, body.len());
            (curve, text)
        },
    };
    let mut data = match base58_decode(&text) {
        None => {
            return None;
        },
        Some(v) => v,
    };
    let expected: usize = if curve == CURVE_ED25519 {
        32
    } else {
        64
    };
    if data.len() != expected {
        return None;
    }
    let mut key: Vec<u8> = Vec::new();
    key.push(curve);
    key.append(&mut data);
    proof {
        assert(key@ =~= seq![curve] + base58_bytes_of(text@)->Some_0);
    }
    Some(key)
}

} // verus!
