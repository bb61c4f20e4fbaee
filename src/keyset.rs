//! Reading a key-set document out of the text of a fetched response.

use vstd::prelude::*;
use crate::types::{Jwk, Jwks, VerifyError};
use crate::outside::{object_members, json_object_members, array_items, json_array_items};
use crate::members::{member, member_text, str_member, opt_str_member, str_member_of, opt_str_member_of};
use crate::payload::opt_text;

verus! {

/// Whether raw JSON text `raw` is a key record object: a string `kty`, and
/// `crv`, `x` and `kid` each absent, `null` or a string.
pub open spec fn jwk_parsable(raw: Seq<char>) -> bool {
    &&& json_object_members(raw) is Some
    &&& str_member(json_object_members(raw)->0, "kty"@) is Some
    &&& opt_str_member(json_object_members(raw)->0, "crv"@) is Some
    &&& opt_str_member(json_object_members(raw)->0, "x"@) is Some
    &&& opt_str_member(json_object_members(raw)->0, "kid"@) is Some
}

/// Whether `k` is the key record that raw JSON text `raw` holds.
pub open spec fn jwk_of(raw: Seq<char>, k: Jwk) -> bool {
    &&& json_object_members(raw) is Some
    &&& str_member(json_object_members(raw)->0, "kty"@) == Some(k.kty@)
    &&& opt_str_member(json_object_members(raw)->0, "crv"@) == Some(opt_text(k.crv))
    &&& opt_str_member(json_object_members(raw)->0, "x"@) == Some(opt_text(k.x))
    &&& opt_str_member(json_object_members(raw)->0, "kid"@) == Some(opt_text(k.kid))
}

/// The raw texts of the records of a key-set document: the elements of its
/// `keys` array.
pub open spec fn key_items(body: Seq<char>) -> Option<Seq<Seq<char>>> {
    match json_object_members(body) {
        Some(ms) => match member(ms, "keys"@) {
            Some(kt) => json_array_items(kt),
            None => None,
        },
        None => None,
    }
}

/// Whether a text is a key-set document whose records all parse.
pub open spec fn jwks_parsable(body: Seq<char>) -> bool {
    key_items(body) matches Some(items) && forall|i: int| 0 <= i < items.len() ==> jwk_parsable(#[trigger] items[i])
}

/// Whether `j` is the key set that the text `body` holds.
pub open spec fn jwks_of(body: Seq<char>, j: Seq<Jwk>) -> bool {
    key_items(body) matches Some(items) && items.len() == j.len()
        && forall|i: int| 0 <= i < items.len() ==> jwk_of(#[trigger] items[i], j[i])
}

fn parse_jwk(raw: &String) -> (r: Option<Jwk>)
    ensures
        r is Some <==> jwk_parsable(raw@),
        r matches Some(k) ==> jwk_of(raw@, k),
{
    let ms = match object_members(raw.as_str()) {
        Some(ms) => ms,
        None => {
            return None;
        },
    };
    let kty = match str_member_of(&ms, &"kty".to_owned()) {
        Some(s) => s,
        None => {
            return None;
        },
    };
    let crv = match opt_str_member_of(&ms, &"crv".to_owned()) {
        Some(x) => x,
        None => {
            return None;
        },
    };
    let x = match opt_str_member_of(&ms, &"x".to_owned()) {
        Some(x) => x,
        None => {
            return None;
        },
    };
    let kid = match opt_str_member_of(&ms, &"kid".to_owned()) {
        Some(x) => x,
        None => {
            return None;
        },
    };
    Some(Jwk { kty, crv, x, kid })
}

/// Reads a key-set document; `JwksJson` when the text is not one.
pub fn parse_jwks(body: &String) -> (r: Result<Jwks, VerifyError>)
    ensures
        r is Ok <==> jwks_parsable(body@),
        r matches Ok(j) ==> jwks_of(body@, j@),
        r is Err ==> r == Err::<Jwks, _>(VerifyError::JwksJson),
{
    let ms = match object_members(body.as_str()) {
        Some(ms) => ms,
        None => {
            return Err(VerifyError::JwksJson);
        },
    };
    let kt = match member_text(&ms, &"keys".to_owned()) {
        Some(t) => t,
        None => {
            return Err(VerifyError::JwksJson);
        },
    };
    let items = match array_items(kt.as_str()) {
        Some(v) => v,
        None => {
            return Err(VerifyError::JwksJson);
        },
    };
    let ghost its = key_items(body@)->0;
    assert(its == crate::types::strings_view(items@));
    let mut keys: Vec<Jwk> = Vec::new();
    let mut i: usize = 0;
    while i < items.len()
        invariant
            its == crate::types::strings_view(items@),
            key_items(body@) == Some(its),
            its.len() == items@.len(),
            i <= items@.len(),
            keys@.len() == i,
            forall|j: int| 0 <= j < i ==> jwk_parsable(#[trigger] its[j]),
            forall|j: int| 0 <= j < i ==> jwk_of(#[trigger] its[j], keys@[j]),
        decreases items@.len() - i,
    {
        assert(its[i as int] == items@[i as int]@);
        match parse_jwk(&items[i]) {
            Some(k) => {
                keys.push(k);
            },
            None => {
                assert(!jwk_parsable(its[i as int]));
                assert(!jwks_parsable(body@)) by {
                    assert(key_items(body@)->0[i as int] == its[i as int]);
                }
                return Err(VerifyError::JwksJson);
            },
        }
        i = i + 1;
    }
    Ok(Jwks { keys })
}

} // verus!
