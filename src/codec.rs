//! Decomposition of a compact token into its three segments, their decoding,
//! and the byte sequence that was signed.

use vstd::prelude::*;
use vstd::utf8::{valid_utf8, decode_utf8};
use crate::types::VerifyError;
use crate::members::{str_member, str_member_of};
use crate::outside::{
    b64url_decode, b64url_decoded, utf8_text, is_json, json_valid, object_members,
    json_object_members,
};

verus! {

/// The number of `.` characters in `s`.
pub open spec fn dot_count(s: Seq<char>) -> nat
    decreases s.len(),
{
    if s.len() == 0 {
        0
    } else {
        dot_count(s.drop_last()) + if s.last() == '.' { 1nat } else { 0nat }
    }
}

/// Whether `h`, `p` and `g` are the three segments of `token`.
pub open spec fn segments(token: Seq<char>, h: Seq<char>, p: Seq<char>, g: Seq<char>) -> bool {
    &&& token == h + seq!['.'] + p + seq!['.'] + g
    &&& !h.contains('.')
    &&& !p.contains('.')
    &&& !g.contains('.')
}

/// The text that a base64url segment carries, if it decodes to valid UTF-8.
pub open spec fn segment_text(seg: Seq<char>) -> Option<Seq<char>> {
    match b64url_decoded(seg) {
        Some(b) => if valid_utf8(b) {
            Some(decode_utf8(b))
        } else {
            None
        },
        None => None,
    }
}

/// The length in bytes of an Ed25519 signature.
pub const SIGNATURE_LEN: usize = 64;

/// The outcome of decoding the segments `h`, `p`, `g`: the header text, the
/// payload text and the signature bytes, or the first failure.
pub open spec fn decode_verdict(h: Seq<char>, p: Seq<char>, g: Seq<char>) -> Result<
    (Seq<char>, Seq<char>, Seq<u8>),
    VerifyError,
> {
    match (segment_text(h), segment_text(p), b64url_decoded(g)) {
        (Some(ht), Some(pt), Some(sig)) => if sig.len() != SIGNATURE_LEN {
            Err(VerifyError::Signature)
        } else if !json_valid(ht) || !json_valid(pt) {
            Err(VerifyError::Json)
        } else {
            Ok((ht, pt, sig))
        },
        _ => Err(VerifyError::Base64),
    }
}

/// A token taken apart: the decoded header and payload texts, the signature
/// bytes, and the signing input (the first two segments as they stand in the
/// token, joined by `.`).
pub struct DecodedToken {
    pub header: String,
    pub payload: String,
    pub signature: Vec<u8>,
    pub signing_input: String,
}

/// Whether `r` is what decoding the token with segments `h`, `p`, `g` yields.
pub open spec fn decoded_from(h: Seq<char>, p: Seq<char>, g: Seq<char>, r: Result<DecodedToken, VerifyError>) -> bool {
    match r {
        Ok(d) => decode_verdict(h, p, g) == Ok::<_, VerifyError>((d.header@, d.payload@, d.signature@))
            && d.signing_input@ == h + seq!['.'] + p,
        Err(e) => decode_verdict(h, p, g) == Err::<(Seq<char>, Seq<char>, Seq<u8>), VerifyError>(e),
    }
}

/// What decoding `token` yields: `BadFormat` unless it has exactly two dots,
/// else the outcome for its three segments.
pub open spec fn decodes_to(token: Seq<char>, r: Result<DecodedToken, VerifyError>) -> bool {
    if dot_count(token) != 2 {
        r == Err::<DecodedToken, VerifyError>(VerifyError::BadFormat)
    } else {
        exists|h: Seq<char>, p: Seq<char>, g: Seq<char>|
            segments(token, h, p, g) && decoded_from(h, p, g, r)
    }
}

pub proof fn lemma_dot_count_concat(a: Seq<char>, b: Seq<char>)
    ensures
        dot_count(a + b) == dot_count(a) + dot_count(b),
    decreases b.len(),
{
    if b.len() == 0 {
        assert(a + b =~= a);
    } else {
        assert((a + b).drop_last() =~= a + b.drop_last());
        lemma_dot_count_concat(a, b.drop_last());
    }
}

pub proof fn lemma_dot_count_zero(s: Seq<char>)
    requires
        dot_count(s) == 0,
    ensures
        !s.contains('.'),
    decreases s.len(),
{
    if s.len() > 0 {
        lemma_dot_count_zero(s.drop_last());
        assert forall|j: int| 0 <= j < s.len() implies s[j] != '.' by {
            if j < s.len() - 1 {
                assert(s.drop_last()[j] == s[j]);
            }
        }
    }
}

pub proof fn lemma_dot_count_none(s: Seq<char>)
    requires
        !s.contains('.'),
    ensures
        dot_count(s) == 0,
    decreases s.len(),
{
    if s.len() > 0 {
        assert(s[s.len() - 1] != '.');
        assert(!s.drop_last().contains('.')) by {
            if s.drop_last().contains('.') {
                let j = choose|j: int| 0 <= j < s.drop_last().len() && s.drop_last()[j] == '.';
                assert(s[j] == '.');
            }
        }
        lemma_dot_count_none(s.drop_last());
    }
}

/// A text split at a dot before which there is none is split at its first
/// dot: the parts are the same for every such split.
proof fn lemma_first_dot_unique(t: Seq<char>, a1: Seq<char>, r1: Seq<char>, a2: Seq<char>, r2: Seq<char>)
    requires
        t == a1 + seq!['.'] + r1,
        t == a2 + seq!['.'] + r2,
        !a1.contains('.'),
        !a2.contains('.'),
    ensures
        a1 == a2,
        r1 == r2,
{
    if a1.len() < a2.len() {
        assert(t[a1.len() as int] == '.');
        assert(a2[a1.len() as int] == t[a1.len() as int]);
    } else if a2.len() < a1.len() {
        assert(t[a2.len() as int] == '.');
        assert(a1[a2.len() as int] == t[a2.len() as int]);
    }
    assert(a1 =~= t.subrange(0, a1.len() as int));
    assert(a2 =~= t.subrange(0, a2.len() as int));
    assert(r1 =~= t.subrange(a1.len() as int + 1, t.len() as int));
    assert(r2 =~= t.subrange(a2.len() as int + 1, t.len() as int));
}

/// A token has at most one way of being three segments.
pub proof fn lemma_segments_unique(
    t: Seq<char>,
    h1: Seq<char>,
    p1: Seq<char>,
    g1: Seq<char>,
    h2: Seq<char>,
    p2: Seq<char>,
    g2: Seq<char>,
)
    requires
        segments(t, h1, p1, g1),
        segments(t, h2, p2, g2),
    ensures
        h1 == h2 && p1 == p2 && g1 == g2,
{
    let dot = seq!['.'];
    assert(t =~= h1 + dot + (p1 + dot + g1));
    assert(t =~= h2 + dot + (p2 + dot + g2));
    lemma_first_dot_unique(t, h1, p1 + dot + g1, h2, p2 + dot + g2);
    lemma_first_dot_unique(p1 + dot + g1, p1, g1, p2, g2);
}

/// A token made of three segments has exactly two dots.
pub proof fn lemma_segments_dots(t: Seq<char>, h: Seq<char>, p: Seq<char>, g: Seq<char>)
    requires
        segments(t, h, p, g),
    ensures
        dot_count(t) == 2,
{
    let dot = seq!['.'];
    lemma_dot_count_none(h);
    lemma_dot_count_none(p);
    lemma_dot_count_none(g);
    assert(dot.drop_last() =~= Seq::<char>::empty());
    assert(dot_count(Seq::<char>::empty()) == 0);
    assert(dot_count(dot) == 1);
    lemma_dot_count_concat(h, dot);
    lemma_dot_count_concat(h + dot, p);
    lemma_dot_count_concat(h + dot + p, dot);
    lemma_dot_count_concat(h + dot + p + dot, g);
}

/// The three segments of `token`, if it has exactly two dots.
#[verifier::rlimit(40)]
fn split3(token: &str) -> (r: Option<(String, String, String)>)
    ensures
        r is Some <==> dot_count(token@) == 2,
        r matches Some(t) ==> segments(token@, t.0@, t.1@, t.2@),
{
    let t = Ghost(token@);
    let len = token.unicode_len();
    let mut i: usize = 0;
    let mut n: usize = 0;
    let mut d1: usize = 0;
    let mut d2: usize = 0;
    assert(t@.subrange(0, 0) =~= Seq::<char>::empty());
    while i < len
        invariant
            t@ == token@,
            len == t@.len(),
            i <= len,
            n <= i,
            n == dot_count(t@.subrange(0, i as int)),
            n >= 1 ==> d1 < i && t@[d1 as int] == '.' && dot_count(t@.subrange(0, d1 as int)) == 0,
            n >= 2 ==> d1 < d2 && d2 < i && t@[d2 as int] == '.' && dot_count(t@.subrange(0, d2 as int)) == 1,
        decreases len - i,
    {
        let c = token.get_char(i);
        assert(t@.subrange(0, i + 1).drop_last() =~= t@.subrange(0, i as int));
        if c == '.' {
            if n == 0 {
                d1 = i;
            } else if n == 1 {
                d2 = i;
            }
            n = n + 1;
        }
        i = i + 1;
    }
    assert(t@.subrange(0, len as int) =~= t@);
    if n != 2 {
        return None;
    }
    let h = token.substring_char(0, d1);
    let p = token.substring_char(d1 + 1, d2);
    let g = token.substring_char(d2 + 1, len);
    proof {
        let dot = seq!['.'];
        assert(t@.subrange(0, d2 as int) =~= h@ + dot + p@);
        lemma_dot_count_concat(h@ + dot, p@);
        lemma_dot_count_concat(h@, dot);
        assert(dot.drop_last() =~= Seq::<char>::empty());
        assert(t@ =~= t@.subrange(0, d2 as int) + dot + g@);
        lemma_dot_count_concat(t@.subrange(0, d2 as int) + dot, g@);
        lemma_dot_count_concat(t@.subrange(0, d2 as int), dot);
        lemma_dot_count_zero(h@);
        lemma_dot_count_zero(p@);
        lemma_dot_count_zero(g@);
        assert(t@ =~= h@ + dot + p@ + dot + g@);
    }
    Some((h.to_owned(), p.to_owned(), g.to_owned()))
}

fn decode_text(seg: &String) -> (r: Option<String>)
    ensures
        r matches Some(t) ==> segment_text(seg@) == Some(t@),
        r is None ==> segment_text(seg@) is None,
{
    match b64url_decode(seg.as_str()) {
        Some(b) => utf8_text(b),
        None => None,
    }
}

/// Takes `token` apart into its decoded header, payload and signature and its
/// signing input.
pub fn decode_token(token: &str) -> (r: Result<DecodedToken, VerifyError>)
    ensures
        decodes_to(token@, r),
{
    let (h, p, g) = match split3(token) {
        Some(parts) => parts,
        None => {
            return Err(VerifyError::BadFormat);
        },
    };
    let r = decode_segments(&h, &p, &g);
    assert(segments(token@, h@, p@, g@) && decoded_from(h@, p@, g@, r));
    r
}

fn decode_segments(h: &String, p: &String, g: &String) -> (r: Result<DecodedToken, VerifyError>)
    ensures
        decoded_from(h@, p@, g@, r),
{
    let header = match decode_text(h) {
        Some(t) => t,
        None => {
            return Err(VerifyError::Base64);
        },
    };
    let payload = match decode_text(p) {
        Some(t) => t,
        None => {
            return Err(VerifyError::Base64);
        },
    };
    let signature = match b64url_decode(g.as_str()) {
        Some(b) => b,
        None => {
            return Err(VerifyError::Base64);
        },
    };
    if signature.len() != SIGNATURE_LEN {
        return Err(VerifyError::Signature);
    }
    if !is_json(header.as_str()) || !is_json(payload.as_str()) {
        return Err(VerifyError::Json);
    }
    let mut signing_input = h.clone();
    signing_input.append(".");
    signing_input.append(p.as_str());
    proof {
        reveal_strlit(".");
    }
    assert(signing_input@ =~= h@ + seq!['.'] + p@);
    Ok(DecodedToken { header, payload, signature, signing_input })
}

/// The one signature algorithm accepted in a token header.
pub open spec fn supported_alg() -> Seq<char> {
    "EdDSA"@
}

/// The outcome of checking a decoded header: the key identifier it names, or
/// `Alg` unless it is an object whose `alg` is the supported algorithm, then
/// `Kid` unless its `kid` is a non-empty string.
pub open spec fn header_verdict(ht: Seq<char>) -> Result<Seq<char>, VerifyError> {
    match json_object_members(ht) {
        None => Err(VerifyError::Alg),
        Some(ms) => if str_member(ms, "alg"@) != Some(supported_alg()) {
            Err(VerifyError::Alg)
        } else {
            match str_member(ms, "kid"@) {
                Some(k) => if k.len() > 0 {
                    Ok(k)
                } else {
                    Err(VerifyError::Kid)
                },
                None => Err(VerifyError::Kid),
            }
        },
    }
}

/// Checks the algorithm of a decoded header and returns its key identifier.
pub fn check_header(header: &String) -> (r: Result<String, VerifyError>)
    ensures
        r matches Ok(k) ==> header_verdict(header@) == Ok::<_, VerifyError>(k@),
        r matches Err(e) ==> header_verdict(header@) == Err::<Seq<char>, _>(e),
{
    let ms = match object_members(header.as_str()) {
        Some(ms) => ms,
        None => {
            return Err(VerifyError::Alg);
        },
    };
    let alg_name = "alg".to_owned();
    let kid_name = "kid".to_owned();
    let eddsa = "EdDSA".to_owned();
    match str_member_of(&ms, &alg_name) {
        Some(a) => if !a.eq(&eddsa) {
            return Err(VerifyError::Alg);
        },
        None => {
            return Err(VerifyError::Alg);
        },
    }
    match str_member_of(&ms, &kid_name) {
        Some(k) => if k.as_str().is_empty() {
            Err(VerifyError::Kid)
        } else {
            Ok(k)
        },
        None => Err(VerifyError::Kid),
    }
}

} // verus!
