//! The verification pipeline: decode, check the header, resolve the key set
//! and the key, verify the signature, read and validate the claims.

use vstd::prelude::*;
use vstd::utf8::encode_utf8;
use crate::types::{Claims, Jwk, Jwks, VerifyError, VerifyOptions};
use crate::codec::{decode_token, decodes_to, check_header, header_verdict, DecodedToken, SIGNATURE_LEN};
use crate::keys::{key_by_kid, resolve};
use crate::payload::{parse_claims, claims_parsable, claims_of};
use crate::claims::{check_claims_at, claims_verdict};
use crate::cache::{JwksCache, fresh_keys};
use crate::keyset::{parse_jwks, jwks_parsable, jwks_of};
use crate::outside::{signature_verifies, ed25519_verifies, now_ts};

verus! {

/// Whether `r` is the outcome of the stages after decoding, for payload text
/// `pt`, signing input `si`, signature `sig` and key identifier `kid`, with the
/// key set `keys`, options `o` and the time `now`.
pub open spec fn verified_as(
    pt: Seq<char>,
    si: Seq<char>,
    sig: Seq<u8>,
    kid: Seq<char>,
    keys: Seq<Jwk>,
    o: VerifyOptions,
    now: int,
    r: Result<Claims, VerifyError>,
) -> bool {
    match resolve(keys, kid) {
        None => r == Err::<Claims, _>(VerifyError::NoKey),
        Some(k) => if sig.len() != SIGNATURE_LEN || !ed25519_verifies(k, encode_utf8(si), sig) {
            r == Err::<Claims, _>(VerifyError::Signature)
        } else if !claims_parsable(pt) {
            r == Err::<Claims, _>(VerifyError::Json)
        } else {
            match r {
                Ok(c) => claims_of(pt, c) && claims_verdict(c, o, now) is Ok,
                Err(e) => exists|c: Claims| claims_of(pt, c) && claims_verdict(c, o, now) == Err::<(), _>(e),
            }
        },
    }
}

/// Runs the stages after decoding on a decoded token whose header named `kid`,
/// with the key set `jwks`, at the time `now`.
pub fn verify_decoded(
    d: &DecodedToken,
    kid: &String,
    jwks: &Jwks,
    o: &VerifyOptions,
    now: i64,
) -> (r: Result<Claims, VerifyError>)
    ensures
        verified_as(d.payload@, d.signing_input@, d.signature@, kid@, jwks@, *o, now as int, r),
{
    let key = match key_by_kid(jwks, kid.as_str()) {
        Some(k) => k,
        None => {
            return Err(VerifyError::NoKey);
        },
    };
    if d.signature.len() != SIGNATURE_LEN {
        return Err(VerifyError::Signature);
    }
    let msg = d.signing_input.as_str().as_bytes();
    if !signature_verifies(&key, msg, &d.signature) {
        return Err(VerifyError::Signature);
    }
    let claims = match parse_claims(&d.payload) {
        Ok(c) => c,
        Err(e) => {
            return Err(e);
        },
    };
    match check_claims_at(&claims, o, now) {
        Ok(()) => Ok(claims),
        Err(e) => Err(e),
    }
}

/// Whether the caches `before` and `after` hold the same entries.
pub open spec fn same_entries(before: JwksCache, after: JwksCache) -> bool {
    &&& after.ttl() == before.ttl()
    &&& forall|u: Seq<char>| #[trigger] after.entry(u) == before.entry(u)
}

/// Whether `r` and the cache `after` are the outcome of resolving the key set
/// at `uri` from the cache `before` at time `now`: the fresh cached set, or
/// else the set that `fetch` returned, stored for `uri` stamped `now`.
pub open spec fn keys_resolved<F: Fn(&str) -> Result<String, String>>(
    before: JwksCache,
    after: JwksCache,
    uri: &str,
    now: i64,
    fetch: F,
    r: Result<Jwks, VerifyError>,
) -> bool {
    match fresh_keys(before.entry(uri@), before.ttl(), now as int) {
        Some(ks) => same_entries(before, after) && (r matches Ok(j) && j@ == ks),
        None => exists|resp: Result<String, String>|
            #[trigger] call_ensures(fetch, (uri,), resp) && match resp {
                Err(detail) => same_entries(before, after) && r == Err::<Jwks, _>(VerifyError::JwksHttp(detail)),
                Ok(body) => if jwks_parsable(body@) {
                    &&& (r matches Ok(j) && jwks_of(body@, j@))
                    &&& after.ttl() == before.ttl()
                    &&& (after.entry(uri@) matches Some(e) && e.fetched_at == now && e.jwks@ == r->Ok_0@)
                    &&& forall|u: Seq<char>| u != uri@ ==> #[trigger] after.entry(u) == before.entry(u)
                } else {
                    same_entries(before, after) && r == Err::<Jwks, _>(VerifyError::JwksJson)
                },
            },
    }
}

/// The key set for `uri` at time `now`: the cached one if it is fresh, else
/// one fetched with `fetch` (the response text, or a transport failure's
/// description), read, and stored in the cache.
pub fn resolve_jwks<F: Fn(&str) -> Result<String, String>>(
    cache: &mut JwksCache,
    uri: &str,
    now: i64,
    fetch: &F,
) -> (r: Result<Jwks, VerifyError>)
    requires
        call_requires(*fetch, (uri,)),
    ensures
        keys_resolved(*old(cache), *final(cache), uri, now, *fetch, r),
{
    match cache.get_fresh_at(uri, now) {
        Some(j) => Ok(j),
        None => {
            let resp = fetch(uri);
            match resp {
                Err(detail) => Err(VerifyError::JwksHttp(detail)),
                Ok(body) => match parse_jwks(&body) {
                    Ok(j) => {
                        cache.put_at(uri, j.copy(), now);
                        Ok(j)
                    },
                    Err(e) => Err(e),
                },
            }
        },
    }
}

/// The time that claims are validated against: the one the options fix, or
/// else the wall-clock time `wall`.
pub open spec fn claims_time(o: VerifyOptions, wall: i64) -> int {
    match o.now {
        Some(n) => n as int,
        None => wall as int,
    }
}

/// Whether `r` and the cache `after` are the outcome of verifying `token`
/// against the key set at `uri`, from the cache `before`, with options `o`,
/// at the wall-clock time `wall`.
pub open spec fn pipeline_outcome<F: Fn(&str) -> Result<String, String>>(
    token: Seq<char>,
    uri: &str,
    before: JwksCache,
    after: JwksCache,
    o: VerifyOptions,
    wall: i64,
    fetch: F,
    r: Result<Claims, VerifyError>,
) -> bool {
    exists|rd: Result<DecodedToken, VerifyError>|
        #[trigger] decodes_to(token, rd) && match rd {
            Err(e) => same_entries(before, after) && r == Err::<Claims, _>(e),
            Ok(d) => match header_verdict(d.header@) {
                Err(e) => same_entries(before, after) && r == Err::<Claims, _>(e),
                Ok(kid) => exists|rk: Result<Jwks, VerifyError>|
                    #[trigger] keys_resolved(before, after, uri, wall, fetch, rk) && match rk {
                        Err(e) => r == Err::<Claims, _>(e),
                        Ok(j) => verified_as(
                            d.payload@,
                            d.signing_input@,
                            d.signature@,
                            kid,
                            j@,
                            o,
                            claims_time(o, wall),
                            r,
                        ),
                    },
            },
        }
}

/// Verifies `token` against the key set at `jwks_uri`, using and refreshing
/// `cache`, at the wall-clock time `wall`; `fetch` retrieves the key-set
/// document when the cache holds no fresh one.
pub fn verify_ed25519_jwt_with_cache_at<F: Fn(&str) -> Result<String, String>>(
    token: &str,
    jwks_uri: &str,
    cache: &mut JwksCache,
    opts: &VerifyOptions,
    wall: i64,
    fetch: &F,
) -> (r: Result<Claims, VerifyError>)
    requires
        call_requires(*fetch, (jwks_uri,)),
    ensures
        pipeline_outcome(token@, jwks_uri, *old(cache), *final(cache), *opts, wall, *fetch, r),
{
    let rd = decode_token(token);
    let d = match rd {
        Ok(d) => d,
        Err(e) => {
            assert(decodes_to(token@, rd));
            return Err(e);
        },
    };
    let kid = match check_header(&d.header) {
        Ok(k) => k,
        Err(e) => {
            assert(decodes_to(token@, rd));
            return Err(e);
        },
    };
    let rk = resolve_jwks(cache, jwks_uri, wall, fetch);
    let jwks = match rk {
        Ok(j) => j,
        Err(e) => {
            assert(decodes_to(token@, rd));
            assert(keys_resolved(*old(cache), *cache, jwks_uri, wall, *fetch, rk));
            return Err(e);
        },
    };
    let now = match opts.now {
        Some(n) => n,
        None => wall,
    };
    let r = verify_decoded(&d, &kid, &jwks, opts, now);
    assert(decodes_to(token@, rd));
    assert(keys_resolved(*old(cache), *cache, jwks_uri, wall, *fetch, rk));
    r
}

/// Verifies `token` against the key set at `jwks_uri`, using and refreshing
/// `cache`, at the current wall-clock time; `fetch` retrieves the key-set
/// document when the cache holds no fresh one.
pub fn verify_ed25519_jwt_with_cache<F: Fn(&str) -> Result<String, String>>(
    token: &str,
    jwks_uri: &str,
    cache: &mut JwksCache,
    opts: &VerifyOptions,
    fetch: &F,
) -> (r: Result<Claims, VerifyError>)
    requires
        call_requires(*fetch, (jwks_uri,)),
    ensures
        exists|wall: i64|
            wall >= 0 && #[trigger] pipeline_outcome(token@, jwks_uri, *old(cache), *final(cache), *opts, wall, *fetch, r),
{
    let wall = now_ts();
    verify_ed25519_jwt_with_cache_at(token, jwks_uri, cache, opts, wall, fetch)
}

} // verus!
