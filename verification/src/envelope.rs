//! The signed envelope of a request: a public key, an address and a
//! signature, each as hexadecimal text in lower case.
//!
//! The signature is an Ed25519 signature of the bytes that the address
//! stands for. A request is handled only once its envelope was admitted.
//! Checking the signature is left to `ed25519-dalek`; what this module
//! assumes of it is stated on the private function at the end of the file.

use vstd::prelude::*;
use vstd::string::*;

use crate::errors::ApiErrorType;
use crate::hex::{decode, hex_decoded};

verus! {

/// The three parts of an envelope as bytes.
#[derive(Debug, Clone, PartialEq, Eq)]
pub struct DecodedEnvelope {
    pub public_key: Vec<u8>,
    pub message: Vec<u8>,
    pub signature: Vec<u8>,
}

/// The envelope decodes, and the signature is one of the address's bytes
/// under the public key.
pub open spec fn envelope_valid(
    public_key: Seq<char>,
    address: Seq<char>,
    signature: Seq<char>,
) -> bool {
    match (hex_decoded(public_key), hex_decoded(address), hex_decoded(signature)) {
        (Some(key), Some(message), Some(signed)) => ed25519_accepts(key, message, signed),
        _ => false,
    }
}

/// Decodes the three parts of an envelope, if each is hexadecimal text.
pub fn decode_envelope(public_key: &str, address: &str, signature: &str) -> (decoded: Option<
    DecodedEnvelope,
>)
    ensures
        match decoded {
            Some(parts) => {
                &&& hex_decoded(public_key@) == Some(parts.public_key@)
                &&& hex_decoded(address@) == Some(parts.message@)
                &&& hex_decoded(signature@) == Some(parts.signature@)
            },
            None => hex_decoded(public_key@) is None || hex_decoded(address@) is None
                || hex_decoded(signature@) is None,
        },
{
    let key = match decode(public_key) {
        Some(bytes) => bytes,
        None => {
            return None;
        },
    };
    let message = match decode(address) {
        Some(bytes) => bytes,
        None => {
            return None;
        },
    };
    let signed = match decode(signature) {
        Some(bytes) => bytes,
        None => {
            return None;
        },
    };
    Some(DecodedEnvelope { public_key: key, message, signature: signed })
}

/// Is the signature of a decoded envelope one of its message under its
/// public key?
pub fn verify_envelope(decoded: &DecodedEnvelope) -> (accepted: bool)
    ensures
        accepted == ed25519_accepts(decoded.public_key@, decoded.message@, decoded.signature@),
{
    ed25519_verify(
        decoded.public_key.as_slice(),
        decoded.message.as_slice(),
        decoded.signature.as_slice(),
    )
}

/// Does the envelope decode, and does its signature verify?
pub fn validate_signature(public_key: &str, address: &str, signature: &str) -> (valid: bool)
    ensures
        valid == envelope_valid(public_key@, address@, signature@),
{
    match decode_envelope(public_key, address, signature) {
        Some(decoded) => verify_envelope(&decoded),
        None => false,
    }
}

/// An envelope that was admitted. There is no other way to one than
/// through [`sig_verify_middleware`], so whoever holds one holds a request
/// whose signature verified.
#[derive(Debug, PartialEq, Eq)]
pub struct Admitted {
    public_key: String,
    address: String,
    signature: String,
}

impl Admitted {
    #[verifier::type_invariant]
    spec fn verified(&self) -> bool {
        envelope_valid(self.public_key@, self.address@, self.signature@)
    }

    /// The public key of the envelope, as it came.
    pub closed spec fn key_text(&self) -> Seq<char> {
        self.public_key@
    }

    /// The address of the envelope, as it came.
    pub closed spec fn address_text(&self) -> Seq<char> {
        self.address@
    }

    /// The signature of the envelope, as it came.
    pub closed spec fn signature_text(&self) -> Seq<char> {
        self.signature@
    }

    /// The address that the envelope signs, with the fact that stands
    /// behind every admitted envelope: its signature verified.
    pub fn address(&self) -> (address: &str)
        ensures
            address@ == self.address_text(),
            envelope_valid(self.key_text(), self.address_text(), self.signature_text()),
    {
        proof {
            use_type_invariant(self);
        }
        self.address.as_str()
    }
}

/// The text of a header, or the empty text where the header is missing.
pub open spec fn header_text(header: Option<&str>) -> Seq<char> {
    match header {
        Some(text) => text@,
        None => Seq::<char>::empty(),
    }
}

/// Admits a request by the three headers of its envelope. A missing header
/// counts as empty text. The request is admitted exactly if the envelope is
/// valid; any other is turned away with `InvalidSignature`.
pub fn sig_verify_middleware(
    public_key: Option<&str>,
    address: Option<&str>,
    signature: Option<&str>,
) -> (admission: Result<Admitted, ApiErrorType>)
    ensures
        admission is Ok <==> envelope_valid(
            header_text(public_key),
            header_text(address),
            header_text(signature),
        ),
        match admission {
            Ok(admitted) => {
                &&& admitted.key_text() == header_text(public_key)
                &&& admitted.address_text() == header_text(address)
                &&& admitted.signature_text() == header_text(signature)
            },
            Err(error) => error == ApiErrorType::InvalidSignature,
        },
{
    let key = public_key.unwrap_or("");
    let message = address.unwrap_or("");
    let signed = signature.unwrap_or("");
    proof {
        reveal_strlit("");
        assert(key@ =~= header_text(public_key));
        assert(message@ =~= header_text(address));
        assert(signed@ =~= header_text(signature));
    }
    if validate_signature(key, message, signed) {
        Ok(
            Admitted {
                public_key: String::from_str(key),
                address: String::from_str(message),
                signature: String::from_str(signed),
            },
        )
    } else {
        Err(ApiErrorType::InvalidSignature)
    }
}

// ---------------------------------------------------------------------------
// What is assumed of the `ed25519-dalek` crate.
// ---------------------------------------------------------------------------

/// Whether `VerifyingKey::verify` accepts `signature` for `message` under
/// the key that `public_key` holds. It accepts none where one of the two
/// does not have its length, or where the key is no point of the curve.
pub uninterp spec fn ed25519_accepts(
    public_key: Seq<u8>,
    message: Seq<u8>,
    signature: Seq<u8>,
) -> bool;

/// `VerifyingKey::try_from` on the key's bytes, `Signature::from_slice` on
/// the signature's, and `VerifyingKey::verify` on the message. A key of
/// other than 32 bytes or a signature of other than 64 is refused by the
/// first two.
#[verifier::external_body]
fn ed25519_verify(public_key: &[u8], message: &[u8], signature: &[u8]) -> (accepted: bool)
    ensures
        accepted == ed25519_accepts(public_key@, message@, signature@),
        accepted ==> public_key@.len() == 32 && signature@.len() == 64,
{
    let key = ed25519_dalek::VerifyingKey::try_from(public_key);
    let signed = ed25519_dalek::Signature::from_slice(signature);
    match (key, signed) {
        (Ok(key), Ok(signed)) => ed25519_dalek::Verifier::verify(&key, message, &signed).is_ok(),
        _ => false,
    }
}

} // verus!
