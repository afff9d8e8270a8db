//! Base64 and Ed25519 primitives, behind trusted wrappers over `base64` and
//! `ed25519-dalek`. Each outcome is named by a spec function of the inputs, so
//! the verified logic above can state exactly which inputs pass.

use base64::engine::general_purpose::{STANDARD, URL_SAFE_NO_PAD};
use base64::Engine;
use ed25519_dalek::{Signature, Verifier, VerifyingKey};
use vstd::prelude::*;

verus! {

#[verifier::external_type_specification]
#[verifier::external_body]
pub struct ExVerifyingKey(VerifyingKey);

/// The outcome of decoding `text` with the standard padded base64 alphabet:
/// the decoded bytes, or the rendered decode error.
pub uninterp spec fn base64_standard_decode(text: Seq<char>) -> Result<Seq<u8>, Seq<char>>;

/// The standard padded base64 encoding of `bytes`.
pub uninterp spec fn base64_standard_encode(bytes: Seq<u8>) -> Seq<char>;

/// Whether 32 bytes decompress to an Ed25519 point (`Ok`), or the rendered
/// error otherwise.
pub uninterp spec fn ed25519_point(bytes: Seq<u8>) -> Result<(), Seq<char>>;

/// The outcome of strict Ed25519 verification of `signature` over `message`
/// under the public key `key` (rejects malleable signatures and small-order
/// keys), with the rendered error on failure.
pub uninterp spec fn ed25519_verify_strict(key: Seq<u8>, message: Seq<u8>, signature: Seq<u8>) -> Result<
    (),
    Seq<char>,
>;

/// The outcome of (non-strict) Ed25519 verification of `signature` over
/// `message` under the public key `key`, with the rendered error on failure.
pub uninterp spec fn ed25519_verify(key: Seq<u8>, message: Seq<u8>, signature: Seq<u8>) -> Result<
    (),
    Seq<char>,
>;

/// Calls `base64::engine::general_purpose::STANDARD.decode`. Trusted to return
/// exactly the outcome named by [`base64_standard_decode`] for `text`, the
/// error rendered with its `Display`.
#[verifier::external_body]
pub(crate) fn b64_decode(text: &str) -> (res: Result<Vec<u8>, String>)
    ensures
        match base64_standard_decode(text@) {
            Ok(bytes) => res matches Ok(v) && v@ == bytes,
            Err(msg) => res matches Err(e) && e@ == msg,
        },
{
    STANDARD.decode(text).map_err(|e| e.to_string())
}

/// The outcome of decoding `text` with the URL-safe base64 alphabet without
/// padding: the decoded bytes, or the rendered decode error.
pub uninterp spec fn base64_url_decode(text: Seq<char>) -> Result<Seq<u8>, Seq<char>>;

/// Calls `base64::engine::general_purpose::URL_SAFE_NO_PAD.decode`. Trusted
/// to return exactly the outcome named by [`base64_url_decode`] for `text`,
/// the error rendered with its `Display`.
#[verifier::external_body]
pub(crate) fn b64url_decode(text: &str) -> (res: Result<Vec<u8>, String>)
    ensures
        match base64_url_decode(text@) {
            Ok(bytes) => res matches Ok(v) && v@ == bytes,
            Err(msg) => res matches Err(e) && e@ == msg,
        },
{
    URL_SAFE_NO_PAD.decode(text).map_err(|e| e.to_string())
}

/// Calls `base64::engine::general_purpose::STANDARD.encode`. Trusted to return
/// the text named by [`base64_standard_encode`] for `bytes`.
#[verifier::external_body]
pub(crate) fn b64_encode(bytes: &[u8]) -> (res: String)
    ensures
        res@ == base64_standard_encode(bytes@),
{
    STANDARD.encode(bytes)
}

/// An Ed25519 verifying key together with the 32 bytes it was decoded from.
pub struct Ed25519Key {
    key: VerifyingKey,
    bytes: Vec<u8>,
}

impl Ed25519Key {
    /// The 32 encoded bytes of this key.
    pub closed spec fn key_bytes(self) -> Seq<u8> {
        self.bytes@
    }
}

/// Calls `ed25519_dalek::VerifyingKey::from_bytes` on 32 bytes. Trusted to
/// succeed exactly when [`ed25519_point`] is `Ok` for them (the returned key
/// then carries those bytes), and otherwise to return that error's text.
#[verifier::external_body]
pub(crate) fn ed25519_key(bytes: &[u8]) -> (res: Result<Ed25519Key, String>)
    requires
        bytes@.len() == 32,
    ensures
        match ed25519_point(bytes@) {
            Ok(()) => res matches Ok(k) && k.key_bytes() == bytes@,
            Err(msg) => res matches Err(e) && e@ == msg,
        },
{
    let arr: [u8; 32] = bytes.try_into().unwrap();
    VerifyingKey::from_bytes(&arr)
        .map(|key| Ed25519Key { key, bytes: bytes.to_vec() })
        .map_err(|e| e.to_string())
}

/// Calls `VerifyingKey::verify_strict` with the 64-byte signature. Trusted to
/// return exactly the outcome named by [`ed25519_verify_strict`].
#[verifier::external_body]
pub(crate) fn ed25519_check_strict(key: &Ed25519Key, message: &[u8], signature: &[u8]) -> (res: Result<
    (),
    String,
>)
    requires
        signature@.len() == 64,
    ensures
        match ed25519_verify_strict(key.key_bytes(), message@, signature@) {
            Ok(()) => res is Ok,
            Err(msg) => res matches Err(e) && e@ == msg,
        },
{
    let arr: [u8; 64] = signature.try_into().unwrap();
    key.key.verify_strict(message, &Signature::from_bytes(&arr)).map_err(|e| e.to_string())
}

/// Calls `<VerifyingKey as Verifier<Signature>>::verify` with the 64-byte
/// signature. Trusted to return exactly the outcome named by
/// [`ed25519_verify`].
#[verifier::external_body]
pub(crate) fn ed25519_check(key: &Ed25519Key, message: &[u8], signature: &[u8]) -> (res: Result<(), String>)
    requires
        signature@.len() == 64,
    ensures
        match ed25519_verify(key.key_bytes(), message@, signature@) {
            Ok(()) => res is Ok,
            Err(msg) => res matches Err(e) && e@ == msg,
        },
{
    let arr: [u8; 64] = signature.try_into().unwrap();
    key.key.verify(message, &Signature::from_bytes(&arr)).map_err(|e| e.to_string())
}

} // verus!
