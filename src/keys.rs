//! Resolution of a key identifier to a public key of a key set.

use vstd::prelude::*;
use crate::types::{Jwk, Jwks};
use crate::outside::{b64url_decode, b64url_decoded, ed25519_key_valid, key_bytes_valid};

verus! {

/// Whether a record is of the supported key family and curve.
pub open spec fn eligible(k: Jwk) -> bool {
    k.kty@ == "OKP"@ && (k.crv matches Some(c) && c@ == "Ed25519"@)
}

/// Whether a record may serve for `kid`: its own identifier equals it, or it
/// has none (an absent or empty identifier matches every `kid`).
pub open spec fn kid_matches(k: Jwk, kid: Seq<char>) -> bool {
    match k.kid {
        Some(s) => s@ == kid || s@.len() == 0,
        None => true,
    }
}

/// The public-key bytes a record carries, if its key material decodes to a
/// usable 32-byte Ed25519 key.
pub open spec fn record_key(k: Jwk) -> Option<Seq<u8>> {
    match k.x {
        Some(x) => match b64url_decoded(x@) {
            Some(b) => if b.len() == 32 && ed25519_key_valid(b) {
                Some(b)
            } else {
                None
            },
            None => None,
        },
        None => None,
    }
}

/// The key a record offers for `kid`.
pub open spec fn candidate(k: Jwk, kid: Seq<char>) -> Option<Seq<u8>> {
    if eligible(k) && kid_matches(k, kid) {
        record_key(k)
    } else {
        None
    }
}

/// The key that `kid` resolves to in `keys`: the first record, in order, that
/// offers one.
pub open spec fn resolve(keys: Seq<Jwk>, kid: Seq<char>) -> Option<Seq<u8>>
    decreases keys.len(),
{
    if keys.len() == 0 {
        None
    } else if candidate(keys[0], kid) is Some {
        candidate(keys[0], kid)
    } else {
        resolve(keys.drop_first(), kid)
    }
}

fn record_key_of(k: &Jwk) -> (r: Option<Vec<u8>>)
    ensures
        r matches Some(b) ==> record_key(*k) == Some(b@),
        r is None ==> record_key(*k) is None,
{
    match &k.x {
        Some(x) => match b64url_decode(x.as_str()) {
            Some(b) => if b.len() == 32 && key_bytes_valid(&b) {
                Some(b)
            } else {
                None
            },
            None => None,
        },
        None => None,
    }
}

/// The public key (its 32 bytes) that `kid` resolves to in `jwks`.
pub fn key_by_kid(jwks: &Jwks, kid: &str) -> (r: Option<Vec<u8>>)
    ensures
        r matches Some(b) ==> resolve(jwks@, kid@) == Some(b@),
        r matches Some(b) ==> b@.len() == 32 && ed25519_key_valid(b@),
        r is None ==> resolve(jwks@, kid@) is None,
{
    let okp = "OKP".to_owned();
    let ed = "Ed25519".to_owned();
    let want = kid.to_owned();
    let s = Ghost(jwks@);
    let mut i: usize = 0;
    assert(s@.subrange(0, s@.len() as int) =~= s@);
    while i < jwks.keys.len()
        invariant
            s@ == jwks@,
            i <= s@.len(),
            okp@ == "OKP"@,
            ed@ == "Ed25519"@,
            want@ == kid@,
            resolve(s@, kid@) == resolve(s@.subrange(i as int, s@.len() as int), kid@),
        decreases s@.len() - i,
    {
        let k = &jwks.keys[i];
        let rest = Ghost(s@.subrange(i as int, s@.len() as int));
        assert(rest@[0] == *k);
        assert(rest@.drop_first() =~= s@.subrange(i + 1, s@.len() as int));
        let kind_ok = k.kty.eq(&okp) && match &k.crv {
            Some(c) => c.eq(&ed),
            None => false,
        };
        if kind_ok {
            let id_ok = match &k.kid {
                Some(s) => s.eq(&want) || s.as_str().is_empty(),
                None => true,
            };
            if id_ok {
                match record_key_of(k) {
                    Some(b) => {
                        return Some(b);
                    },
                    None => {},
                }
            }
        }
        i = i + 1;
    }
    None
}

} // verus!
