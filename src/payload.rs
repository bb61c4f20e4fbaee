//! Reading a claim set out of a decoded payload.

use vstd::prelude::*;
use crate::types::{Aud, Claims, VerifyError};
use crate::outside::{object_members, json_object_members, pairs_view};
use crate::members::{
    AudValue, aud_value, str_member, opt_str_member, opt_int_member, opt_aud_member, str_member_of,
    opt_str_member_of, opt_int_member_of, opt_aud_member_of,
};

verus! {

/// Whether `n` is the name of one of the claims that `Claims` has a field for.
pub open spec fn is_named_claim(n: Seq<char>) -> bool {
    n == "sub"@ || n == "iss"@ || n == "aud"@ || n == "exp"@ || n == "nbf"@ || n == "iat"@
        || n == "jti"@ || n == "scope"@
}

/// The members that are not named claims, in order.
pub open spec fn extra_members(ms: Seq<(Seq<char>, Seq<char>)>) -> Seq<(Seq<char>, Seq<char>)>
    decreases ms.len(),
{
    if ms.len() == 0 {
        Seq::empty()
    } else if is_named_claim(ms.last().0) {
        extra_members(ms.drop_last())
    } else {
        extra_members(ms.drop_last()).push(ms.last())
    }
}

pub open spec fn opt_text(o: Option<String>) -> Option<Seq<char>> {
    match o {
        Some(s) => Some(s@),
        None => None,
    }
}

pub open spec fn opt_aud(o: Option<Aud>) -> Option<AudValue> {
    match o {
        Some(a) => Some(aud_value(a)),
        None => None,
    }
}

/// Whether a payload text maps onto the claim shape: an object with a string
/// `sub`, and each other named claim absent, `null`, or of its type.
pub open spec fn claims_parsable(pt: Seq<char>) -> bool {
    &&& json_object_members(pt) is Some
    &&& str_member(json_object_members(pt)->0, "sub"@) is Some
    &&& opt_str_member(json_object_members(pt)->0, "iss"@) is Some
    &&& opt_aud_member(json_object_members(pt)->0, "aud"@) is Some
    &&& opt_int_member(json_object_members(pt)->0, "exp"@) is Some
    &&& opt_int_member(json_object_members(pt)->0, "nbf"@) is Some
    &&& opt_int_member(json_object_members(pt)->0, "iat"@) is Some
    &&& opt_str_member(json_object_members(pt)->0, "jti"@) is Some
    &&& opt_str_member(json_object_members(pt)->0, "scope"@) is Some
}

/// Whether `c` is the claim set that payload text `pt` holds.
pub open spec fn claims_of(pt: Seq<char>, c: Claims) -> bool {
    &&& json_object_members(pt) is Some
    &&& str_member(json_object_members(pt)->0, "sub"@) == Some(c.sub@)
    &&& opt_str_member(json_object_members(pt)->0, "iss"@) == Some(opt_text(c.iss))
    &&& opt_aud_member(json_object_members(pt)->0, "aud"@) == Some(opt_aud(c.aud))
    &&& opt_int_member(json_object_members(pt)->0, "exp"@) == Some(c.exp)
    &&& opt_int_member(json_object_members(pt)->0, "nbf"@) == Some(c.nbf)
    &&& opt_int_member(json_object_members(pt)->0, "iat"@) == Some(c.iat)
    &&& opt_str_member(json_object_members(pt)->0, "jti"@) == Some(opt_text(c.jti))
    &&& opt_str_member(json_object_members(pt)->0, "scope"@) == Some(opt_text(c.scope))
    &&& pairs_view(c.extra@) == extra_members(json_object_members(pt)->0)
}

fn is_named(n: &String) -> (r: bool)
    ensures
        r == is_named_claim(n@),
{
    n.eq(&"sub".to_owned()) || n.eq(&"iss".to_owned()) || n.eq(&"aud".to_owned())
        || n.eq(&"exp".to_owned()) || n.eq(&"nbf".to_owned()) || n.eq(&"iat".to_owned())
        || n.eq(&"jti".to_owned()) || n.eq(&"scope".to_owned())
}

fn extras(ms: &Vec<(String, String)>) -> (r: Vec<(String, String)>)
    ensures
        pairs_view(r@) == extra_members(pairs_view(ms@)),
{
    let ghost v = pairs_view(ms@);
    let mut out: Vec<(String, String)> = Vec::new();
    let mut i: usize = 0;
    assert(v.subrange(0, 0) =~= Seq::<(Seq<char>, Seq<char>)>::empty());
    assert(pairs_view(out@) =~= Seq::<(Seq<char>, Seq<char>)>::empty());
    while i < ms.len()
        invariant
            v == pairs_view(ms@),
            i <= ms@.len(),
            pairs_view(out@) == extra_members(v.subrange(0, i as int)),
        decreases ms@.len() - i,
    {
        assert(v.subrange(0, i + 1).drop_last() =~= v.subrange(0, i as int));
        if !is_named(&ms[i].0) {
            let ghost before = out@;
            out.push((ms[i].0.clone(), ms[i].1.clone()));
            assert(pairs_view(out@) =~= pairs_view(before).push(v[i as int]));
        }
        i = i + 1;
    }
    assert(v.subrange(0, ms@.len() as int) =~= v);
    out
}

/// Reads the claim set of a decoded payload; `Json` when it does not map onto
/// the claim shape.
pub fn parse_claims(payload: &String) -> (r: Result<Claims, VerifyError>)
    ensures
        r is Ok <==> claims_parsable(payload@),
        r matches Ok(c) ==> claims_of(payload@, c),
        r is Err ==> r == Err::<Claims, _>(VerifyError::Json),
{
    let ms = match object_members(payload.as_str()) {
        Some(ms) => ms,
        None => {
            return Err(VerifyError::Json);
        },
    };
    let sub = match str_member_of(&ms, &"sub".to_owned()) {
        Some(s) => s,
        None => {
            return Err(VerifyError::Json);
        },
    };
    let iss = match opt_str_member_of(&ms, &"iss".to_owned()) {
        Some(x) => x,
        None => {
            return Err(VerifyError::Json);
        },
    };
    let aud = match opt_aud_member_of(&ms, &"aud".to_owned()) {
        Some(x) => x,
        None => {
            return Err(VerifyError::Json);
        },
    };
    let exp = match opt_int_member_of(&ms, &"exp".to_owned()) {
        Some(x) => x,
        None => {
            return Err(VerifyError::Json);
        },
    };
    let nbf = match opt_int_member_of(&ms, &"nbf".to_owned()) {
        Some(x) => x,
        None => {
            return Err(VerifyError::Json);
        },
    };
    let iat = match opt_int_member_of(&ms, &"iat".to_owned()) {
        Some(x) => x,
        None => {
            return Err(VerifyError::Json);
        },
    };
    let jti = match opt_str_member_of(&ms, &"jti".to_owned()) {
        Some(x) => x,
        None => {
            return Err(VerifyError::Json);
        },
    };
    let scope = match opt_str_member_of(&ms, &"scope".to_owned()) {
        Some(x) => x,
        None => {
            return Err(VerifyError::Json);
        },
    };
    let extra = extras(&ms);
    Ok(Claims { sub, iss, aud, exp, nbf, iat, jti, scope, extra })
}

} // verus!
