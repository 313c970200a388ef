use ed25519_dalek::{Signer, SigningKey};
use tiered_kv::envelope::{
    decode_envelope, sig_verify_middleware, validate_signature, verify_envelope, DecodedEnvelope,
};
use tiered_kv::errors::ApiErrorType;
use tiered_kv::hex;
use tiered_kv::responses::{handle_rejection, invalid_signature};

struct Envelope {
    public_key: String,
    address: String,
    signature: String,
}

fn signed(seed: u8, message: &[u8]) -> Envelope {
    let key = SigningKey::from_bytes(&[seed; 32]);
    Envelope {
        public_key: hex::encode(&key.verifying_key().to_bytes().to_vec()),
        address: hex::encode(&message.to_vec()),
        signature: hex::encode(&key.sign(message).to_bytes().to_vec()),
    }
}

#[test]
fn a_signed_envelope_is_valid() {
    let envelope = signed(1, b"an address");
    assert!(validate_signature(&envelope.public_key, &envelope.address, &envelope.signature));
    let admitted = sig_verify_middleware(
        Some(&envelope.public_key),
        Some(&envelope.address),
        Some(&envelope.signature),
    )
    .expect("a valid envelope");
    assert_eq!(admitted.address(), envelope.address);
}

#[test]
fn an_envelope_in_capitals_is_refused() {
    let envelope = signed(1, b"an address");
    assert!(!validate_signature(
        &envelope.public_key.to_uppercase(),
        &envelope.address,
        &envelope.signature
    ));
    assert!(!validate_signature(
        &envelope.public_key,
        &envelope.address,
        &envelope.signature.to_uppercase()
    ));
}

#[test]
fn a_tampered_signature_is_refused() {
    let envelope = signed(1, b"an address");
    let mut bytes = hex::decode(&envelope.signature).expect("hexadecimal text");
    bytes[10] ^= 1;
    let tampered = hex::encode(&bytes);
    assert!(!validate_signature(&envelope.public_key, &envelope.address, &tampered));
    assert_eq!(
        sig_verify_middleware(
            Some(&envelope.public_key),
            Some(&envelope.address),
            Some(&tampered)
        ),
        Err(ApiErrorType::InvalidSignature)
    );
}

#[test]
fn a_signature_of_another_address_is_refused() {
    let envelope = signed(1, b"an address");
    let other = hex::encode(&b"another address".to_vec());
    assert!(!validate_signature(&envelope.public_key, &other, &envelope.signature));
}

#[test]
fn a_signature_under_another_key_is_refused() {
    let envelope = signed(1, b"an address");
    let other = signed(2, b"an address");
    assert!(!validate_signature(&other.public_key, &envelope.address, &envelope.signature));
}

#[test]
fn a_missing_header_is_refused() {
    let envelope = signed(1, b"an address");
    let key = Some(envelope.public_key.as_str());
    let address = Some(envelope.address.as_str());
    let signature = Some(envelope.signature.as_str());
    assert_eq!(
        sig_verify_middleware(None, address, signature),
        Err(ApiErrorType::InvalidSignature)
    );
    assert_eq!(
        sig_verify_middleware(key, None, signature),
        Err(ApiErrorType::InvalidSignature)
    );
    assert_eq!(sig_verify_middleware(key, address, None), Err(ApiErrorType::InvalidSignature));
    assert_eq!(sig_verify_middleware(None, None, None), Err(ApiErrorType::InvalidSignature));
}

#[test]
fn text_that_is_not_hexadecimal_is_refused() {
    let envelope = signed(1, b"an address");
    assert!(!validate_signature("zz", &envelope.address, &envelope.signature));
    assert!(!validate_signature(&envelope.public_key, "0x123", &envelope.signature));
    assert!(!validate_signature(&envelope.public_key, &envelope.address, "signature"));
    assert_eq!(decode_envelope("zz", "00", "00"), None);
    assert_eq!(decode_envelope("00", "0x", "00"), None);
    assert_eq!(decode_envelope("00", "00", "0"), None);
}

#[test]
fn keys_and_signatures_of_other_lengths_are_refused() {
    let envelope = signed(1, b"an address");
    let short_key = &envelope.public_key[2..];
    let short_signature = &envelope.signature[2..];
    assert!(!validate_signature(short_key, &envelope.address, &envelope.signature));
    assert!(!validate_signature(&envelope.public_key, &envelope.address, short_signature));
    assert!(!validate_signature("", "", ""));
}

#[test]
fn an_envelope_is_decoded_part_by_part() {
    assert_eq!(
        decode_envelope("0a0b", "ff", ""),
        Some(DecodedEnvelope {
            public_key: vec![0x0a, 0x0b],
            message: vec![0xff],
            signature: Vec::new(),
        })
    );
}

#[test]
fn a_decoded_envelope_is_verified_as_it_stands() {
    let envelope = signed(3, b"\x00\x01\x02");
    let decoded = decode_envelope(&envelope.public_key, &envelope.address, &envelope.signature)
        .expect("hexadecimal text");
    assert_eq!(decoded.message, vec![0, 1, 2]);
    assert!(verify_envelope(&decoded));
    let mut other = decoded.clone();
    other.message.push(3);
    assert!(!verify_envelope(&other));
}

#[test]
fn an_empty_address_can_be_signed() {
    let envelope = signed(1, b"");
    assert_eq!(envelope.address, "");
    assert!(validate_signature(&envelope.public_key, &envelope.address, &envelope.signature));
}

#[test]
fn a_refused_envelope_is_answered_with_a_bad_request() {
    let rejection = invalid_signature("request", "get_data");
    assert_eq!(rejection.code, 400);
    assert_eq!(rejection.text(), "Invalid signature");
    let reply = handle_rejection(Some(&rejection));
    assert_eq!(reply.code, 400);
    assert_eq!(reply.status, "Error");
    assert_eq!(reply.reason, "Invalid signature");
    assert_eq!(reply.route, "get_data");
    assert_eq!(reply.content, "null");
}

#[test]
fn any_other_rejection_is_an_internal_error() {
    let reply = handle_rejection(None);
    assert_eq!(reply.code, 500);
    assert_eq!(reply.status, "Error");
    assert_eq!(reply.reason, "Internal Server Error");
    assert_eq!(reply.content, "null");
}
