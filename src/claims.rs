//! Validation of a claim set against the caller's policy.

use vstd::prelude::*;
use crate::types::{aud_names, strings_view, Aud, Claims, VerifyError, VerifyOptions};
use crate::outside::now_ts;

verus! {

/// The outcome of validating claims `c` under options `o` at time `now`:
/// the first failing check in the order sub, exp, nbf, iat, issuer, audience.
pub open spec fn claims_verdict(c: Claims, o: VerifyOptions, now: int) -> Result<(), VerifyError> {
    let lw = o.leeway_secs as int;
    if c.sub@.len() == 0 {
        Err(VerifyError::MissingSub)
    } else if c.exp matches Some(exp) && now > exp + lw {
        Err(VerifyError::Expired)
    } else if c.nbf matches Some(nbf) && now + lw < nbf {
        Err(VerifyError::NotYetValid)
    } else if c.iat matches Some(iat) && iat > now + lw {
        Err(VerifyError::NotYetValid)
    } else if o.issuer matches Some(iss) && !(c.iss matches Some(ci) && ci@ == iss@) {
        Err(VerifyError::Issuer)
    } else if o.audience matches Some(aud) && !(c.aud matches Some(ca) && aud_names(ca, aud@)) {
        Err(VerifyError::Audience)
    } else {
        Ok(())
    }
}

fn str_eq(a: &String, b: &String) -> (r: bool)
    ensures
        r == (a@ == b@),
{
    a.eq(b)
}

fn aud_matches(aud: &Aud, expected: &String) -> (r: bool)
    ensures
        r == aud_names(*aud, expected@),
{
    match aud {
        Aud::One(s) => str_eq(s, expected),
        Aud::Many(v) => {
            let mut i: usize = 0;
            while i < v.len()
                invariant
                    *aud == Aud::Many(*v),
                    0 <= i <= v@.len(),
                    forall|j: int| 0 <= j < i ==> #[trigger] strings_view(v@)[j] != expected@,
                decreases v@.len() - i,
            {
                if str_eq(&v[i], expected) {
                    assert(strings_view(v@)[i as int] == expected@);
                    return true;
                }
                i = i + 1;
            }
            false
        },
    }
}

/// Validates claims `c` under options `o` at the time `now`.
pub fn check_claims_at(c: &Claims, o: &VerifyOptions, now: i64) -> (r: Result<(), VerifyError>)
    ensures
        r == claims_verdict(*c, *o, now as int),
{
    let now = now as i128;
    let lw = o.leeway_secs as i128;
    if c.sub.as_str().is_empty() {
        return Err(VerifyError::MissingSub);
    }
    if let Some(exp) = c.exp {
        if now > exp as i128 + lw {
            return Err(VerifyError::Expired);
        }
    }
    if let Some(nbf) = c.nbf {
        if now + lw < nbf as i128 {
            return Err(VerifyError::NotYetValid);
        }
    }
    if let Some(iat) = c.iat {
        if iat as i128 > now + lw {
            return Err(VerifyError::NotYetValid);
        }
    }
    if let Some(iss) = &o.issuer {
        let ok = match &c.iss {
            Some(ci) => str_eq(ci, iss),
            None => false,
        };
        if !ok {
            return Err(VerifyError::Issuer);
        }
    }
    if let Some(aud) = &o.audience {
        let ok = match &c.aud {
            Some(ca) => aud_matches(ca, aud),
            None => false,
        };
        if !ok {
            return Err(VerifyError::Audience);
        }
    }
    Ok(())
}

/// Validates claims `c` under options `o`, at the time the options fix or
/// else at the wall-clock time.
pub fn check_claims(c: &Claims, o: &VerifyOptions) -> (r: Result<(), VerifyError>)
    ensures
        o.now matches Some(n) ==> r == claims_verdict(*c, *o, n as int),
        o.now is None ==> exists|n: i64| n >= 0 && r == claims_verdict(*c, *o, n as int),
{
    let now = match o.now {
        Some(n) => n,
        None => now_ts(),
    };
    check_claims_at(c, o, now)
}

} // verus!
