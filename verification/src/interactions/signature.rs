//! Authentication of inbound requests by their Ed25519 signature.

use crate::hex::{hex_decode, is_hex_string, parse_hex};
use ed25519_dalek::{Signature, SignatureError, VerifyingKey};
use vstd::prelude::*;
use vstd::string::*;

verus! {

/// The error type of `ed25519_dalek`; nothing is known of what it holds.
#[verifier::external_type_specification]
#[verifier::external_body]
pub struct ExSignatureError(SignatureError);

/// Whether `VerifyingKey::from_bytes` accepts `key`, that is, whether the 32
/// bytes are the compressed form of a point on the curve.
pub uninterp spec fn ed25519_key_decodes(key: Seq<u8>) -> bool;

/// Whether the key that `key` encodes verifies `signature` over `message`,
/// as `VerifyingKey::verify` decides it.
pub uninterp spec fn ed25519_verifies(key: Seq<u8>, message: Seq<u8>, signature: Seq<u8>) -> bool;

/// Calls `VerifyingKey::from_bytes` and drops the key it decodes. The call
/// succeeds exactly on the byte strings that `ed25519_key_decodes` names; on the
/// others it hands back the outside crate's error.
#[verifier::external_body]
fn check_public_key(key: &[u8; 32]) -> (r: Result<(), SignatureError>)
    ensures
        r is Ok <==> ed25519_key_decodes(key@),
{
    match VerifyingKey::from_bytes(key) {
        Ok(_) => Ok(()),
        Err(e) => Err(e),
    }
}

/// Calls `VerifyingKey::verify` (from the `Verifier` trait of `ed25519_dalek`)
/// with the key decoded from `key` and the signature made of `signature` by
/// `Signature::from_bytes`. The result is `true` exactly when the outside crate
/// accepts the signature, which `ed25519_verifies` names.
#[verifier::external_body]
fn check_signature(key: &[u8; 32], message: &[u8], signature: &[u8; 64]) -> (ok: bool)
    requires
        ed25519_key_decodes(key@),
    ensures
        ok == ed25519_verifies(key@, message@, signature@),
{
    match VerifyingKey::from_bytes(key) {
        Ok(k) => ed25519_dalek::Verifier::verify(&k, message, &Signature::from_bytes(signature)).is_ok(),
        Err(_) => false,
    }
}

/// Why a verifier could not be made, or why a request was not authentic.
#[derive(Debug)]
pub enum Error {
    /// The signature is not 64 bytes of hexadecimal, or does not match.
    Signature,
    /// The key bytes do not form a valid public key.
    PublicKey(SignatureError),
    /// The key is not 32 bytes of hexadecimal.
    PublicKeyFormat,
}

impl Error {
    /// The message that describes this error.
    pub fn message(&self) -> (r: &'static str)
        ensures
            r@ == match self {
                Error::Signature => "Invalid signature"@,
                Error::PublicKey(_) => "Invalid public key"@,
                Error::PublicKeyFormat => "Invalid public key format"@,
            },
    {
        match self {
            Error::Signature => "Invalid signature",
            Error::PublicKey(_) => "Invalid public key",
            Error::PublicKeyFormat => "Invalid public key format",
        }
    }
}

/// The message that a signature over `timestamp` and `body` signs: the UTF-8
/// bytes of the timestamp followed by the body.
pub open spec fn signed_message(timestamp: Seq<char>, body: Seq<u8>) -> Seq<u8> {
    vstd::utf8::encode_utf8(timestamp) + body
}

/// The bytes of `head` followed by those of `tail`.
fn concat_bytes(head: &[u8], tail: &[u8]) -> (r: Vec<u8>)
    ensures
        r@ == head@ + tail@,
{
    let mut out: Vec<u8> = Vec::new();
    let mut i: usize = 0;
    while i < head.len()
        invariant
            i <= head.len(),
            out@ == head@.subrange(0, i as int),
        decreases head.len() - i,
    {
        out.push(head[i]);
        i += 1;
    }
    let mut j: usize = 0;
    while j < tail.len()
        invariant
            j <= tail.len(),
            out@ == head@ + tail@.subrange(0, j as int),
        decreases tail.len() - j,
    {
        out.push(tail[j]);
        j += 1;
    }
    assert(tail@.subrange(0, tail.len() as int) == tail@);
    out
}

/// Verifies the signatures of inbound interactions under one public key.
pub struct Verifier {
    key: [u8; 32],
}

impl Verifier {
    #[verifier::type_invariant]
    spec fn key_is_valid(self) -> bool {
        ed25519_key_decodes(self.key@)
    }

    /// The 32 bytes of the public key.
    pub closed spec fn key_bytes(self) -> Seq<u8> {
        self.key@
    }

    /// Whether this verifier accepts `signature` for `timestamp` and `body`.
    pub open spec fn accepts(self, signature: Seq<char>, timestamp: Seq<char>, body: Seq<u8>) -> bool {
        &&& is_hex_string(signature, 64)
        &&& ed25519_verifies(
            self.key_bytes(),
            signed_message(timestamp, body),
            hex_decode(signature),
        )
    }

    /// Creates a verifier from a hex-encoded public key.
    pub fn try_new(public_key: &str) -> (r: Result<Verifier, Error>)
        ensures
            match r {
                Ok(v) => {
                    &&& is_hex_string(public_key@, 32)
                    &&& ed25519_key_decodes(hex_decode(public_key@))
                    &&& v.key_bytes() == hex_decode(public_key@)
                },
                Err(Error::PublicKeyFormat) => !is_hex_string(public_key@, 32),
                Err(Error::PublicKey(_)) => {
                    &&& is_hex_string(public_key@, 32)
                    &&& !ed25519_key_decodes(hex_decode(public_key@))
                },
                Err(Error::Signature) => false,
            },
    {
        let key = match parse_hex::<32>(public_key) {
            Some(key) => key,
            None => {
                return Err(Error::PublicKeyFormat);
            },
        };
        match check_public_key(&key) {
            Ok(()) => Ok(Verifier { key }),
            Err(e) => Err(Error::PublicKey(e)),
        }
    }

    /// Verifies a hex-encoded signature over the timestamp followed by the body.
    pub fn verify(&self, signature: &str, timestamp: &str, body: &[u8]) -> (r: Result<(), Error>)
        ensures
            r is Ok <==> self.accepts(signature@, timestamp@, body@),
            r matches Err(e) ==> e is Signature,
    {
        proof {
            use_type_invariant(self);
        }
        let sig_bytes = match parse_hex::<64>(signature) {
            Some(bytes) => bytes,
            None => {
                return Err(Error::Signature);
            },
        };
        let to_verify = concat_bytes(timestamp.as_bytes(), body);
        if check_signature(&self.key, to_verify.as_slice(), &sig_bytes) {
            Ok(())
        } else {
            Err(Error::Signature)
        }
    }
}

/// A signature that is not 128 hexadecimal digits is accepted under no key,
/// for no timestamp and no body.
pub proof fn lemma_malformed_signature_fails(
    verifier: Verifier,
    signature: Seq<char>,
    timestamp: Seq<char>,
    body: Seq<u8>,
)
    requires
        !is_hex_string(signature, 64),
    ensures
        !verifier.accepts(signature, timestamp, body),
{
}

/// Whether a request is accepted depends on the timestamp and the body only
/// through the message that they make up together.
pub proof fn lemma_accepts_signed_message(
    verifier: Verifier,
    signature: Seq<char>,
    timestamp: Seq<char>,
    body: Seq<u8>,
    other_timestamp: Seq<char>,
    other_body: Seq<u8>,
)
    requires
        signed_message(timestamp, body) == signed_message(other_timestamp, other_body),
    ensures
        verifier.accepts(signature, timestamp, body) == verifier.accepts(
            signature,
            other_timestamp,
            other_body,
        ),
{
}

} // verus!
