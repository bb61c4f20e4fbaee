//! The calls this library makes into other crates, each with the contract
//! that the library relies on.

use vstd::prelude::*;
use vstd::utf8::{valid_utf8, decode_utf8};
use base64::Engine;
use crate::types::strings_view;

verus! {

/// The bytes that URL-safe, unpadded base64 decoding yields for a text, if it
/// is valid in that alphabet.
pub uninterp spec fn b64url_decoded(s: Seq<char>) -> Option<Seq<u8>>;

/// Whether a text is one JSON document.
pub uninterp spec fn json_valid(s: Seq<char>) -> bool;

/// The members (name and raw value text) of a text that is one JSON object.
pub uninterp spec fn json_object_members(s: Seq<char>) -> Option<Seq<(Seq<char>, Seq<char>)>>;

/// The elements (raw text each) of a text that is one JSON array.
pub uninterp spec fn json_array_items(s: Seq<char>) -> Option<Seq<Seq<char>>>;

/// A JSON text read as a string or `null`.
pub uninterp spec fn json_opt_string(s: Seq<char>) -> Option<Option<Seq<char>>>;

/// A JSON text read as a signed 64-bit integer or `null`.
pub uninterp spec fn json_opt_i64(s: Seq<char>) -> Option<Option<i64>>;

/// A JSON text read as an array of strings or `null`.
pub uninterp spec fn json_opt_strings(s: Seq<char>) -> Option<Option<Seq<Seq<char>>>>;

/// Whether 32 bytes are the compressed form of a usable Ed25519 public key.
pub uninterp spec fn ed25519_key_valid(key: Seq<u8>) -> bool;

/// Whether a 64-byte signature over a message verifies, under the strict
/// rules, with a public key given by its 32 bytes.
pub uninterp spec fn ed25519_verifies(key: Seq<u8>, msg: Seq<u8>, sig: Seq<u8>) -> bool;

pub open spec fn pairs_view(v: Seq<(String, String)>) -> Seq<(Seq<char>, Seq<char>)> {
    v.map_values(|p: (String, String)| (p.0@, p.1@))
}

/// Relies on base64's `Engine::decode` with the URL-safe, unpadded engine.
#[verifier::external_body]
pub(crate) fn b64url_decode(s: &str) -> (r: Option<Vec<u8>>)
    ensures
        r matches Some(b) ==> b64url_decoded(s@) == Some(b@),
        r is None ==> b64url_decoded(s@) is None,
{
    base64::engine::general_purpose::URL_SAFE_NO_PAD.decode(s.as_bytes()).ok()
}

/// Relies on `String::from_utf8`: it accepts exactly the valid UTF-8 byte
/// sequences and keeps the characters they encode.
#[verifier::external_body]
pub(crate) fn utf8_text(b: Vec<u8>) -> (r: Option<String>)
    ensures
        r is Some <==> valid_utf8(b@),
        r matches Some(t) ==> t@ == decode_utf8(b@),
{
    String::from_utf8(b).ok()
}

/// Relies on `serde_json::from_str` into `serde_json::Value`.
#[verifier::external_body]
pub(crate) fn is_json(s: &str) -> (r: bool)
    ensures
        r == json_valid(s@),
{
    serde_json::from_str::<serde_json::Value>(s).is_ok()
}

/// Relies on `serde_json::from_str` into a map of raw values.
#[verifier::external_body]
pub(crate) fn object_members(s: &str) -> (r: Option<Vec<(String, String)>>)
    ensures
        r matches Some(v) ==> json_object_members(s@) == Some(pairs_view(v@)),
        r is None ==> json_object_members(s@) is None,
{
    serde_json::from_str::<std::collections::BTreeMap<String, Box<serde_json::value::RawValue>>>(s)
        .ok()
        .map(|m| m.into_iter().map(|(k, v)| (k, v.get().to_string())).collect())
}

/// Relies on `serde_json::from_str` into a vector of raw values.
#[verifier::external_body]
pub(crate) fn array_items(s: &str) -> (r: Option<Vec<String>>)
    ensures
        r matches Some(v) ==> json_array_items(s@) == Some(strings_view(v@)),
        r is None ==> json_array_items(s@) is None,
{
    serde_json::from_str::<Vec<Box<serde_json::value::RawValue>>>(s)
        .ok()
        .map(|v| v.into_iter().map(|x| x.get().to_string()).collect())
}

/// Relies on `serde_json::from_str` into `Option<String>`.
#[verifier::external_body]
pub(crate) fn opt_string(s: &str) -> (r: Option<Option<String>>)
    ensures
        r matches Some(Some(t)) ==> json_opt_string(s@) == Some(Some(t@)),
        r matches Some(None) ==> json_opt_string(s@) == Some(None::<Seq<char>>),
        r is None ==> json_opt_string(s@) is None,
{
    serde_json::from_str::<Option<String>>(s).ok()
}

/// Relies on `serde_json::from_str` into `Option<i64>`.
#[verifier::external_body]
pub(crate) fn opt_i64(s: &str) -> (r: Option<Option<i64>>)
    ensures
        r == json_opt_i64(s@),
{
    serde_json::from_str::<Option<i64>>(s).ok()
}

/// Relies on `serde_json::from_str` into `Option<Vec<String>>`.
#[verifier::external_body]
pub(crate) fn opt_strings(s: &str) -> (r: Option<Option<Vec<String>>>)
    ensures
        r matches Some(Some(v)) ==> json_opt_strings(s@) == Some(Some(strings_view(v@))),
        r matches Some(None) ==> json_opt_strings(s@) == Some(None::<Seq<Seq<char>>>),
        r is None ==> json_opt_strings(s@) is None,
{
    serde_json::from_str::<Option<Vec<String>>>(s).ok()
}

/// Relies on ed25519_dalek's `VerifyingKey::from_bytes`: whether the bytes
/// decompress to a usable public key.
#[verifier::external_body]
pub(crate) fn key_bytes_valid(key: &Vec<u8>) -> (r: bool)
    requires
        key@.len() == 32,
    ensures
        r == ed25519_key_valid(key@),
{
    let bytes: [u8; 32] = key.as_slice().try_into().unwrap();
    ed25519_dalek::VerifyingKey::from_bytes(&bytes).is_ok()
}

/// Relies on ed25519_dalek's `VerifyingKey::verify_strict`, with the key and
/// signature converted from their byte forms.
#[verifier::external_body]
pub(crate) fn signature_verifies(key: &Vec<u8>, msg: &[u8], sig: &Vec<u8>) -> (r: bool)
    requires
        key@.len() == 32,
        sig@.len() == 64,
        ed25519_key_valid(key@),
    ensures
        r == ed25519_verifies(key@, msg@, sig@),
{
    let k: [u8; 32] = key.as_slice().try_into().unwrap();
    let s: [u8; 64] = sig.as_slice().try_into().unwrap();
    match ed25519_dalek::VerifyingKey::from_bytes(&k) {
        Ok(vk) => vk.verify_strict(msg, &ed25519_dalek::Signature::from_bytes(&s)).is_ok(),
        Err(_) => false,
    }
}

/// Relies on `SystemTime::now` measured from the Unix epoch; zero if the clock
/// stands before it. Nothing is promised of the value.
#[verifier::external_body]
fn system_secs() -> (r: u64) {
    std::time::SystemTime::now()
        .duration_since(std::time::UNIX_EPOCH)
        .unwrap_or_default()
        .as_secs()
}

/// The current wall-clock time in whole seconds since the Unix epoch.
pub fn now_ts() -> (r: i64)
    ensures
        r >= 0,
{
    let s = system_secs();
    if s > i64::MAX as u64 {
        i64::MAX
    } else {
        s as i64
    }
}

} // verus!
