//! The data this library works on: claims, options, errors and key sets.

use vstd::prelude::*;

verus! {

/// The audience claim: one string or an ordered list of strings.
#[derive(Debug, Clone)]
pub enum Aud {
    One(String),
    Many(Vec<String>),
}

/// The texts of a sequence of strings.
pub open spec fn strings_view(v: Seq<String>) -> Seq<Seq<char>> {
    v.map_values(|s: String| s@)
}

/// Whether an audience claim names `expected`, as the whole string or as one
/// element of the list.
pub open spec fn aud_names(aud: Aud, expected: Seq<char>) -> bool {
    match aud {
        Aud::One(s) => s@ == expected,
        Aud::Many(v) => strings_view(v@).contains(expected),
    }
}

/// The claim set carried by a token's payload.
///
/// `extra` keeps every member that is not one of the named claims, as its
/// name and its raw JSON text.
#[derive(Debug, Clone)]
pub struct Claims {
    pub sub: String,
    pub iss: Option<String>,
    pub aud: Option<Aud>,
    pub exp: Option<i64>,
    pub nbf: Option<i64>,
    pub iat: Option<i64>,
    pub jti: Option<String>,
    pub scope: Option<String>,
    pub extra: Vec<(String, String)>,
}

/// The caller's policy for one verification.
#[derive(Debug, Clone)]
pub struct VerifyOptions {
    pub leeway_secs: i64,
    pub issuer: Option<String>,
    pub audience: Option<String>,
    pub now: Option<i64>,
}

/// The leeway that options start with, in seconds.
pub const DEFAULT_LEEWAY_SECS: i64 = 300;

impl Default for VerifyOptions {
    fn default() -> (r: Self)
        ensures
            r.leeway_secs == DEFAULT_LEEWAY_SECS,
            r.issuer is None,
            r.audience is None,
            r.now is None,
    {
        VerifyOptions { leeway_secs: DEFAULT_LEEWAY_SECS, issuer: None, audience: None, now: None }
    }
}

impl VerifyOptions {
    /// Requires the `iss` claim to equal `iss` exactly.
    pub fn with_issuer(self, iss: &str) -> (r: Self)
        ensures
            r.issuer matches Some(s) && s@ == iss@,
            r.audience == self.audience,
            r.leeway_secs == self.leeway_secs,
            r.now == self.now,
    {
        VerifyOptions { issuer: Some(iss.to_owned()), ..self }
    }

    /// Requires the `aud` claim to be, or to contain, `aud` exactly.
    pub fn with_audience(self, aud: &str) -> (r: Self)
        ensures
            r.audience matches Some(s) && s@ == aud@,
            r.issuer == self.issuer,
            r.leeway_secs == self.leeway_secs,
            r.now == self.now,
    {
        VerifyOptions { audience: Some(aud.to_owned()), ..self }
    }

    /// Sets the tolerance for clock skew, in seconds.
    pub fn with_leeway(self, secs: i64) -> (r: Self)
        ensures
            r.leeway_secs == secs,
            r.issuer == self.issuer,
            r.audience == self.audience,
            r.now == self.now,
    {
        VerifyOptions { leeway_secs: secs, ..self }
    }

    /// Fixes the current time, in seconds since the Unix epoch.
    pub fn with_now(self, now: i64) -> (r: Self)
        ensures
            r.now == Some(now),
            r.issuer == self.issuer,
            r.audience == self.audience,
            r.leeway_secs == self.leeway_secs,
    {
        VerifyOptions { now: Some(now), ..self }
    }
}

/// Why a token was rejected.
#[derive(Debug, Clone)]
pub enum VerifyError {
    BadFormat,
    Base64,
    Json,
    Alg,
    Kid,
    JwksHttp(String),
    JwksJson,
    NoKey,
    Signature,
    Expired,
    NotYetValid,
    Issuer,
    Audience,
    MissingSub,
}

impl VerifyError {
    /// A short description of the failure.
    pub fn message(&self) -> (r: String) {
        match self {
            VerifyError::BadFormat => "bad token format".to_owned(),
            VerifyError::Base64 => "base64 decode failed".to_owned(),
            VerifyError::Json => "json parse failed".to_owned(),
            VerifyError::Alg => "alg not allowed (expected EdDSA)".to_owned(),
            VerifyError::Kid => "missing kid in JWT header".to_owned(),
            VerifyError::JwksHttp(d) => {
                let mut m = "jwks http error: ".to_owned();
                m.append(d.as_str());
                m
            },
            VerifyError::JwksJson => "jwks parse error".to_owned(),
            VerifyError::NoKey => "no matching key for kid".to_owned(),
            VerifyError::Signature => "invalid signature".to_owned(),
            VerifyError::Expired => "claim 'exp' expired".to_owned(),
            VerifyError::NotYetValid => "claim 'nbf' in future".to_owned(),
            VerifyError::Issuer => "issuer mismatch".to_owned(),
            VerifyError::Audience => "audience mismatch".to_owned(),
            VerifyError::MissingSub => "missing sub".to_owned(),
        }
    }
}

/// One public-key record of a key-set document.
#[derive(Debug, Clone)]
pub struct Jwk {
    pub kty: String,
    pub crv: Option<String>,
    pub x: Option<String>,
    pub kid: Option<String>,
}

/// A key-set document: its records in document order.
#[derive(Debug, Clone)]
pub struct Jwks {
    pub keys: Vec<Jwk>,
}

impl View for Jwks {
    type V = Seq<Jwk>;

    open spec fn view(&self) -> Seq<Jwk> {
        self.keys@
    }
}

fn copy_opt_string(s: &Option<String>) -> (r: Option<String>)
    ensures
        r == *s,
{
    match s {
        Some(t) => Some(t.clone()),
        None => None,
    }
}

impl Jwk {
    /// A copy of this record.
    pub fn copy(&self) -> (r: Jwk)
        ensures
            r == *self,
    {
        Jwk {
            kty: self.kty.clone(),
            crv: copy_opt_string(&self.crv),
            x: copy_opt_string(&self.x),
            kid: copy_opt_string(&self.kid),
        }
    }
}

impl Jwks {
    /// A copy of this key set, with its records in the same order.
    pub fn copy(&self) -> (r: Jwks)
        ensures
            r@ == self@,
    {
        let mut keys: Vec<Jwk> = Vec::new();
        let mut i: usize = 0;
        while i < self.keys.len()
            invariant
                0 <= i <= self@.len(),
                keys@ == self@.subrange(0, i as int),
            decreases self@.len() - i,
        {
            keys.push(self.keys[i].copy());
            i = i + 1;
            assert(keys@ =~= self@.subrange(0, i as int));
        }
        assert(keys@ =~= self@);
        Jwks { keys }
    }
}

/// A cached key set and the time, in epoch seconds, at which it was fetched.
#[derive(Debug, Clone)]
pub struct JwksCacheEntry {
    pub jwks: Jwks,
    pub fetched_at: i64,
}

} // verus!
