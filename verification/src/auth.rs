//! Request signatures: whether an incoming event was signed by the chat
//! platform.

use vstd::prelude::*;
use vstd::string::*;

verus! {

/// The value of one hexadecimal digit, in either case.
pub open spec fn hex_digit_value(digit: u8) -> Option<u8> {
    if 0x30 <= digit <= 0x39 {
        Some((digit - 0x30) as u8)
    } else if 0x41 <= digit <= 0x46 {
        Some((digit - 0x41 + 10) as u8)
    } else if 0x61 <= digit <= 0x66 {
        Some((digit - 0x61 + 10) as u8)
    } else {
        None
    }
}

/// Whether `text` writes bytes in hexadecimal: an even number of
/// hexadecimal digits and nothing else.
pub open spec fn is_hex(text: Seq<u8>) -> bool {
    text.len() % 2 == 0 && forall|i: int| 0 <= i < text.len() ==> hex_digit_value(
        #[trigger] text[i],
    ) is Some
}

/// The bytes that `text` writes in hexadecimal, two digits to the byte and
/// the high one first.
pub open spec fn hex_bytes(text: Seq<u8>) -> Seq<u8> {
    Seq::new(
        text.len() / 2,
        |i: int| (hex_digit_value(text[2 * i])->0 * 16 + hex_digit_value(text[2 * i + 1])->0) as u8,
    )
}

/// Reads bytes written in hexadecimal.
///
/// Trusted: stands for `hex::decode`. The contract claims that it succeeds
/// exactly on an even number of hexadecimal digits of either case and then
/// returns the bytes they write, the high digit of each byte first.
#[verifier::external_body]
fn hex_decode(text: &str) -> (decoded: Option<Vec<u8>>)
    ensures
        decoded is Some <==> is_hex(text.spec_bytes()),
        decoded matches Some(bytes) ==> bytes@ == hex_bytes(text.spec_bytes()),
{
    hex::decode(text).ok()
}

/// Declares `ed25519_dalek::PublicKey`, of which nothing is known but what
/// the functions below say.
#[verifier::external_type_specification]
#[verifier::external_body]
pub struct ExPublicKey(ed25519_dalek::PublicKey);

/// Declares `ed25519_dalek::Signature`, of which nothing is known but what
/// the functions below say.
#[verifier::external_type_specification]
#[verifier::external_body]
pub struct ExSignature(ed25519_dalek::Signature);

/// Whether 32 bytes are the compressed form of a point on the curve, and
/// so an Ed25519 public key.
pub uninterp spec fn is_public_key(bytes: Seq<u8>) -> bool;

/// The bytes that a public key was read from.
pub uninterp spec fn public_key_bytes(key: ed25519_dalek::PublicKey) -> Seq<u8>;

/// The bytes that a signature was read from.
pub uninterp spec fn signature_bytes(signature: ed25519_dalek::Signature) -> Seq<u8>;

/// Whether the Ed25519 signature `signature` of `message` verifies under
/// the public key `key`.
pub uninterp spec fn signature_verifies(key: Seq<u8>, message: Seq<u8>, signature: Seq<u8>) -> bool;

/// Whether 64 bytes have the form of a signature: the three highest bits
/// of the last byte are clear.
pub open spec fn is_signature(bytes: Seq<u8>) -> bool {
    bytes.len() == 64 && (bytes[63] & 0xe0) == 0
}

/// Reads a public key.
///
/// Trusted: stands for `ed25519_dalek::PublicKey::from_bytes`. The contract
/// claims that it succeeds on exactly the byte strings that
/// [`is_public_key`] names, all of them 32 bytes long, and that the key
/// holds the bytes it was read from.
#[verifier::external_body]
fn public_key_from_bytes(bytes: &[u8]) -> (key: Option<ed25519_dalek::PublicKey>)
    ensures
        key is Some <==> is_public_key(bytes@),
        key is Some ==> bytes@.len() == 32,
        key matches Some(read) ==> public_key_bytes(read) == bytes@,
{
    ed25519_dalek::PublicKey::from_bytes(bytes).ok()
}

/// Reads a signature.
///
/// Trusted: stands for `ed25519_dalek::Signature::from_bytes`. The contract
/// claims that it succeeds exactly on 64 bytes of which the last has its
/// three highest bits clear, and that the signature holds the bytes it was
/// read from.
#[verifier::external_body]
fn signature_from_bytes(bytes: &[u8]) -> (signature: Option<ed25519_dalek::Signature>)
    ensures
        signature is Some <==> is_signature(bytes@),
        signature matches Some(read) ==> signature_bytes(read) == bytes@,
{
    ed25519_dalek::Signature::from_bytes(bytes).ok()
}

/// Checks a signature of a message under a public key.
///
/// Trusted: stands for `ed25519_dalek::Verifier::verify` on a
/// `PublicKey`. The contract claims only that the answer is a function of
/// the key's bytes, the message and the signature's bytes, which
/// [`signature_verifies`] names.
#[verifier::external_body]
fn verify_signature(
    key: &ed25519_dalek::PublicKey,
    message: &[u8],
    signature: &ed25519_dalek::Signature,
) -> (verified: bool)
    ensures
        verified == signature_verifies(
            public_key_bytes(*key),
            message@,
            signature_bytes(*signature),
        ),
{
    ed25519_dalek::Verifier::verify(key, message, signature).is_ok()
}

/// Whether a signature given as bytes verifies for a message under a
/// public key given as bytes: both must have their form.
pub open spec fn spec_check_signature(key: Seq<u8>, message: Seq<u8>, signature: Seq<u8>) -> bool {
    is_public_key(key) && is_signature(signature) && signature_verifies(key, message, signature)
}

/// Checks a signature given as bytes for a message under a public key
/// given as bytes.
pub fn check_signature(key: &[u8], message: &[u8], signature: &[u8]) -> (valid: bool)
    ensures
        valid == spec_check_signature(key@, message@, signature@),
{
    match (public_key_from_bytes(key), signature_from_bytes(signature)) {
        (Some(key), Some(signature)) => verify_signature(&key, message, &signature),
        _ => false,
    }
}

/// Whether an event was signed by the holder of the bot's key.
///
/// The key and the signature are written in hexadecimal; what is signed is
/// the timestamp followed by the body. An event that lacks any of the
/// four, or whose key or signature does not read, is not signed.
pub open spec fn spec_verify_request(
    public_key: Option<&str>,
    signature: Option<&str>,
    timestamp: Option<&str>,
    body: Option<&str>,
) -> bool {
    match (public_key, signature, timestamp, body) {
        (Some(public_key), Some(signature), Some(timestamp), Some(body)) => {
            &&& is_hex(public_key.spec_bytes())
            &&& is_hex(signature.spec_bytes())
            &&& spec_check_signature(
                hex_bytes(public_key.spec_bytes()),
                vstd::utf8::encode_utf8(timestamp@ + body@),
                hex_bytes(signature.spec_bytes()),
            )
        },
        _ => false,
    }
}

/// Checks that an event was signed by the holder of the bot's key, given
/// the key from the configuration and the signature, the timestamp and the
/// body from the event, each where it is there.
pub fn verify_request(
    public_key: Option<&str>,
    signature: Option<&str>,
    timestamp: Option<&str>,
    body: Option<&str>,
) -> (valid: bool)
    ensures
        valid == spec_verify_request(public_key, signature, timestamp, body),
{
    match (public_key, signature, timestamp, body) {
        (Some(public_key), Some(signature), Some(timestamp), Some(body)) => {
            match (hex_decode(public_key), hex_decode(signature)) {
                (Some(key_bytes), Some(signature_bytes)) => {
                    let mut signed = String::from_str(timestamp);
                    signed.append(body);
                    check_signature(
                        key_bytes.as_slice(),
                        signed.as_str().as_bytes(),
                        signature_bytes.as_slice(),
                    )
                },
                _ => false,
            }
        },
        _ => false,
    }
}

} // verus!
