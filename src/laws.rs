//! Properties that hold across the library's functions, proved over the
//! specifications that their contracts use.

use vstd::prelude::*;
use vstd::utf8::encode_utf8;
use crate::types::{Aud, Claims, Jwk, JwksCacheEntry, Jwks, VerifyError, VerifyOptions, strings_view};
use crate::claims::claims_verdict;
use crate::cache::{JwksCache, fresh_keys};
use crate::keys::resolve;
use crate::outside::{ed25519_verifies, json_object_members};
use crate::payload::{claims_parsable, claims_of};
use crate::members::str_member;
use crate::pipeline::{verified_as, pipeline_outcome, claims_time, keys_resolved};
use crate::codec::{
    segments, decode_verdict, decodes_to, decoded_from, header_verdict, lemma_segments_unique,
    lemma_segments_dots, DecodedToken,
};

verus! {

/// A token whose `exp` lies one second before `now - leeway` is rejected as
/// expired; one whose `exp` is exactly `now - leeway` passes the expiry check,
/// so its outcome is that of the same claims without `exp`.
pub proof fn law_expiry_boundary(c: Claims, o: VerifyOptions, now: int)
    requires
        c.sub@.len() > 0,
    ensures
        c.exp == Some((now - o.leeway_secs - 1) as i64) && now - o.leeway_secs - 1 == (now
            - o.leeway_secs - 1) as i64 ==> claims_verdict(c, o, now) == Err::<(), _>(
            VerifyError::Expired,
        ),
        c.exp == Some((now - o.leeway_secs) as i64) && now - o.leeway_secs == (now
            - o.leeway_secs) as i64 ==> claims_verdict(c, o, now) == claims_verdict(
            Claims { exp: None, ..c },
            o,
            now,
        ),
{
}

/// A token whose `nbf` lies one second after `now + leeway` is rejected as not
/// yet valid (once it is not expired); one whose `nbf` is exactly
/// `now + leeway` passes that check, so its outcome is that of the same claims
/// without `nbf`.
pub proof fn law_not_before_boundary(c: Claims, o: VerifyOptions, now: int)
    requires
        c.sub@.len() > 0,
        !(c.exp matches Some(exp) && now > exp + o.leeway_secs),
    ensures
        c.nbf == Some((now + o.leeway_secs + 1) as i64) && now + o.leeway_secs + 1 == (now
            + o.leeway_secs + 1) as i64 ==> claims_verdict(c, o, now) == Err::<(), _>(
            VerifyError::NotYetValid,
        ),
        c.nbf == Some((now + o.leeway_secs) as i64) && now + o.leeway_secs == (now
            + o.leeway_secs) as i64 ==> claims_verdict(c, o, now) == claims_verdict(
            Claims { nbf: None, ..c },
            o,
            now,
        ),
{
}

/// With an expected audience configured: a list-valued `aud` that contains it
/// passes the audience check (the outcome is that of the same options without
/// an expected audience); a list that does not contain it, or an absent `aud`,
/// is rejected with `Audience` once every other check passes.
pub proof fn law_audience_list(c: Claims, o: VerifyOptions, now: int, expected: String)
    requires
        o.audience == Some(expected),
    ensures
        (c.aud matches Some(Aud::Many(v)) && strings_view(v@).contains(expected@)) ==> claims_verdict(c, o, now)
            == claims_verdict(c, VerifyOptions { audience: None, ..o }, now),
        ((c.aud matches Some(Aud::Many(v)) && !strings_view(v@).contains(expected@)) || c.aud is None)
            && claims_verdict(c, VerifyOptions { audience: None, ..o }, now) is Ok
            ==> claims_verdict(c, o, now) == Err::<(), _>(VerifyError::Audience),
{
}

/// A key set stored for a location at time `t` is handed out at any time
/// within the cache's time-to-live of `t` (in particular at `t` itself), and
/// not at any later time.
pub proof fn law_cache_freshness(cache: JwksCache, uri: Seq<char>, jwks: Jwks, t: i64, now: int)
    requires
        cache.entry(uri) == Some(JwksCacheEntry { jwks, fetched_at: t }),
    ensures
        t <= now <= t + cache.ttl() ==> fresh_keys(cache.entry(uri), cache.ttl(), now) == Some(jwks@),
        now > t + cache.ttl() ==> fresh_keys(cache.entry(uri), cache.ttl(), now) is None,
{
}

/// A token whose signature was made with the key that its `kid` resolves to,
/// and whose claims satisfy the policy, is accepted, and the claim set handed
/// back carries the signed `sub`.
pub proof fn law_valid_token_accepted(
    pt: Seq<char>,
    si: Seq<char>,
    sig: Seq<u8>,
    kid: Seq<char>,
    keys: Seq<Jwk>,
    o: VerifyOptions,
    now: int,
    k: Seq<u8>,
    r: Result<Claims, VerifyError>,
)
    requires
        resolve(keys, kid) == Some(k),
        sig.len() == 64,
        ed25519_verifies(k, encode_utf8(si), sig),
        claims_parsable(pt),
        forall|c: Claims| claims_of(pt, c) ==> #[trigger] claims_verdict(c, o, now) is Ok,
        verified_as(pt, si, sig, kid, keys, o, now, r),
    ensures
        r matches Ok(c) && str_member(json_object_members(pt)->0, "sub"@) == Some(c.sub@),
{
    if let Err(e) = r {
        let c = choose|c: Claims| claims_of(pt, c) && claims_verdict(c, o, now) == Err::<(), _>(e);
        assert(claims_verdict(c, o, now) is Ok);
    }
}

/// A token whose signature does not verify under the key that its `kid`
/// resolves to (for instance one made with another private key) is rejected
/// with `Signature`.
pub proof fn law_foreign_signature_rejected(
    pt: Seq<char>,
    si: Seq<char>,
    sig: Seq<u8>,
    kid: Seq<char>,
    keys: Seq<Jwk>,
    o: VerifyOptions,
    now: int,
    k: Seq<u8>,
    r: Result<Claims, VerifyError>,
)
    requires
        resolve(keys, kid) == Some(k),
        !ed25519_verifies(k, encode_utf8(si), sig),
        verified_as(pt, si, sig, kid, keys, o, now, r),
    ensures
        r == Err::<Claims, _>(VerifyError::Signature),
{
}

/// For a token that decodes and names a key identifier, with a fresh cached
/// key set, the pipeline's outcome is that of the stages after decoding.
proof fn lemma_outcome_with_fresh_keys<F: Fn(&str) -> Result<String, String>>(
    token: Seq<char>,
    h: Seq<char>,
    p: Seq<char>,
    g: Seq<char>,
    ht: Seq<char>,
    pt: Seq<char>,
    sig: Seq<u8>,
    kid: Seq<char>,
    keys: Seq<Jwk>,
    uri: &str,
    before: JwksCache,
    after: JwksCache,
    o: VerifyOptions,
    wall: i64,
    fetch: F,
    r: Result<Claims, VerifyError>,
)
    requires
        segments(token, h, p, g),
        decode_verdict(h, p, g) == Ok::<_, VerifyError>((ht, pt, sig)),
        header_verdict(ht) == Ok::<_, VerifyError>(kid),
        fresh_keys(before.entry(uri@), before.ttl(), wall as int) == Some(keys),
        pipeline_outcome(token, uri, before, after, o, wall, fetch, r),
    ensures
        verified_as(pt, h + seq!['.'] + p, sig, kid, keys, o, claims_time(o, wall), r),
{
    lemma_segments_dots(token, h, p, g);
    let rd = choose|rd: Result<DecodedToken, VerifyError>|
        #[trigger] decodes_to(token, rd) && match rd {
            Err(e) => crate::pipeline::same_entries(before, after) && r == Err::<Claims, _>(e),
            Ok(d) => match header_verdict(d.header@) {
                Err(e) => crate::pipeline::same_entries(before, after) && r == Err::<Claims, _>(e),
                Ok(kid) => exists|rk: Result<Jwks, VerifyError>|
                    #[trigger] keys_resolved(before, after, uri, wall, fetch, rk) && match rk {
                        Err(e) => r == Err::<Claims, _>(e),
                        Ok(j) => verified_as(
                            d.payload@,
                            d.signing_input@,
                            d.signature@,
                            kid,
                            j@,
                            o,
                            claims_time(o, wall),
                            r,
                        ),
                    },
            },
        };
    let (h2, p2, g2) = choose|h2: Seq<char>, p2: Seq<char>, g2: Seq<char>|
        segments(token, h2, p2, g2) && decoded_from(h2, p2, g2, rd);
    lemma_segments_unique(token, h, p, g, h2, p2, g2);
    let d = rd->Ok_0;
    assert(d.header@ == ht && d.payload@ == pt && d.signature@ == sig);
    let rk = choose|rk: Result<Jwks, VerifyError>|
        #[trigger] keys_resolved(before, after, uri, wall, fetch, rk) && match rk {
            Err(e) => r == Err::<Claims, _>(e),
            Ok(j) => verified_as(
                d.payload@,
                d.signing_input@,
                d.signature@,
                kid,
                j@,
                o,
                claims_time(o, wall),
                r,
            ),
        };
}

/// A token made of three segments, that decodes, names the supported
/// algorithm and a key identifier, and whose signature over its first two
/// segments verifies under the key that identifier resolves to in a fresh
/// cached key set, is accepted when its claims satisfy the policy; the claim
/// set handed back carries the signed `sub`.
pub proof fn law_signed_token_verifies<F: Fn(&str) -> Result<String, String>>(
    token: Seq<char>,
    h: Seq<char>,
    p: Seq<char>,
    g: Seq<char>,
    ht: Seq<char>,
    pt: Seq<char>,
    sig: Seq<u8>,
    kid: Seq<char>,
    keys: Seq<Jwk>,
    k: Seq<u8>,
    uri: &str,
    before: JwksCache,
    after: JwksCache,
    o: VerifyOptions,
    wall: i64,
    fetch: F,
    r: Result<Claims, VerifyError>,
)
    requires
        segments(token, h, p, g),
        decode_verdict(h, p, g) == Ok::<_, VerifyError>((ht, pt, sig)),
        header_verdict(ht) == Ok::<_, VerifyError>(kid),
        fresh_keys(before.entry(uri@), before.ttl(), wall as int) == Some(keys),
        resolve(keys, kid) == Some(k),
        ed25519_verifies(k, encode_utf8(h + seq!['.'] + p), sig),
        claims_parsable(pt),
        forall|c: Claims| claims_of(pt, c) ==> #[trigger] claims_verdict(c, o, claims_time(o, wall)) is Ok,
        pipeline_outcome(token, uri, before, after, o, wall, fetch, r),
    ensures
        r matches Ok(c) && str_member(json_object_members(pt)->0, "sub"@) == Some(c.sub@),
{
    lemma_outcome_with_fresh_keys(token, h, p, g, ht, pt, sig, kid, keys, uri, before, after, o, wall, fetch, r);
    law_valid_token_accepted(pt, h + seq!['.'] + p, sig, kid, keys, o, claims_time(o, wall), k, r);
}

/// A token made of three segments, that decodes and names the supported
/// algorithm and a key identifier, but whose signature does not verify under
/// the key that identifier resolves to in a fresh cached key set (for
/// instance one made with another private key), is rejected with `Signature`.
pub proof fn law_foreign_token_rejected<F: Fn(&str) -> Result<String, String>>(
    token: Seq<char>,
    h: Seq<char>,
    p: Seq<char>,
    g: Seq<char>,
    ht: Seq<char>,
    pt: Seq<char>,
    sig: Seq<u8>,
    kid: Seq<char>,
    keys: Seq<Jwk>,
    k: Seq<u8>,
    uri: &str,
    before: JwksCache,
    after: JwksCache,
    o: VerifyOptions,
    wall: i64,
    fetch: F,
    r: Result<Claims, VerifyError>,
)
    requires
        segments(token, h, p, g),
        decode_verdict(h, p, g) == Ok::<_, VerifyError>((ht, pt, sig)),
        header_verdict(ht) == Ok::<_, VerifyError>(kid),
        fresh_keys(before.entry(uri@), before.ttl(), wall as int) == Some(keys),
        resolve(keys, kid) == Some(k),
        !ed25519_verifies(k, encode_utf8(h + seq!['.'] + p), sig),
        pipeline_outcome(token, uri, before, after, o, wall, fetch, r),
    ensures
        r == Err::<Claims, _>(VerifyError::Signature),
{
    lemma_outcome_with_fresh_keys(token, h, p, g, ht, pt, sig, kid, keys, uri, before, after, o, wall, fetch, r);
}

} // verus!
