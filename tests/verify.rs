use base64::engine::general_purpose::URL_SAFE_NO_PAD as B64URL;
use base64::Engine;
use ed25519_dalek::{Signer, SigningKey};
use rand::rngs::StdRng;
use rand::SeedableRng;
use ubl_auth::{
    check_claims, check_claims_at, check_header, decode_token, key_by_kid, now_ts, parse_claims, parse_jwks, verify_ed25519_jwt_with_cache,
    verify_ed25519_jwt_with_cache_at, Aud, Claims, Jwk, Jwks, JwksCache, VerifyError, VerifyOptions,
};

fn signing_key(seed: u64) -> SigningKey {
    let mut rng = StdRng::seed_from_u64(seed);
    SigningKey::generate(&mut rng)
}

fn jwk_for(sk: &SigningKey, kid: Option<&str>) -> Jwk {
    Jwk {
        kty: "OKP".into(),
        crv: Some("Ed25519".into()),
        x: Some(B64URL.encode(sk.verifying_key().to_bytes())),
        kid: kid.map(|k| k.to_string()),
    }
}

fn token(sk: &SigningKey, header: &str, payload: &str) -> String {
    let msg = format!("{}.{}", B64URL.encode(header), B64URL.encode(payload));
    let sig = sk.sign(msg.as_bytes());
    format!("{}.{}", msg, B64URL.encode(sig.to_bytes()))
}

fn cache_with(sk: &SigningKey, kid: Option<&str>) -> JwksCache {
    let mut cache = JwksCache::new(3600);
    cache.put("mem://jwks", Jwks { keys: vec![jwk_for(sk, kid)] });
    cache
}

fn no_fetch(_uri: &str) -> Result<String, String> {
    Err("offline".to_string())
}

fn claims(sub: &str) -> Claims {
    Claims {
        sub: sub.to_string(),
        iss: None,
        aud: None,
        exp: None,
        nbf: None,
        iat: None,
        jti: None,
        scope: None,
        extra: vec![],
    }
}

const T: i64 = 1_700_000_000;

#[test]
fn roundtrip_sign_and_verify_with_cache() {
    let sk = signing_key(42);
    let mut cache = cache_with(&sk, Some("test"));
    let mut header = serde_json::Map::new();
    header.insert("alg".into(), "EdDSA".into());
    header.insert("kid".into(), "test".into());
    header.insert("typ".into(), "JWT".into());
    let now = now_ts();
    let mut payload = serde_json::Map::new();
    payload.insert("sub".into(), "did:key:zTest".into());
    payload.insert("iss".into(), "https://id.ubl.agency".into());
    payload.insert("aud".into(), "demo".into());
    payload.insert("iat".into(), now.into());
    payload.insert("nbf".into(), (now - 5).into());
    payload.insert("exp".into(), (now + 3600).into());
    let hdr = B64URL.encode(json_atomic::canonize(&serde_json::Value::Object(header)).unwrap());
    let pld = B64URL.encode(json_atomic::canonize(&serde_json::Value::Object(payload)).unwrap());
    let msg = format!("{}.{}", hdr, pld);
    let sig = sk.sign(msg.as_bytes());
    let jwt = format!("{}.{}", msg, B64URL.encode(sig.to_bytes()));
    let opts = VerifyOptions::default().with_issuer("https://id.ubl.agency").with_audience("demo");
    let claims = verify_ed25519_jwt_with_cache(&jwt, "mem://jwks", &mut cache, &opts, &no_fetch).expect("verify");
    assert_eq!(claims.sub, "did:key:zTest");
}

fn demo_payload(t: i64) -> String {
    format!(
        r#"{{"sub":"did:key:zDemo","iss":"issuer","aud":"example","iat":{},"nbf":{},"exp":{}}}"#,
        t,
        t,
        t + 600
    )
}

#[test]
fn demo_token_is_accepted() {
    let sk = signing_key(7);
    let mut cache = cache_with(&sk, Some("demo"));
    let jwt = token(&sk, r#"{"alg":"EdDSA","kid":"demo","typ":"JWT"}"#, &demo_payload(T));
    let opts = VerifyOptions::default().with_issuer("issuer").with_audience("example");
    let c = verify_ed25519_jwt_with_cache_at(&jwt, "mem://jwks", &mut cache, &opts.with_now(T), T, &no_fetch).unwrap();
    assert_eq!(c.sub, "did:key:zDemo");
    assert_eq!(c.iss.as_deref(), Some("issuer"));
    assert_eq!(c.exp, Some(T + 600));
    assert!(matches!(c.aud, Some(Aud::One(ref a)) if a == "example"));
}

#[test]
fn demo_token_with_other_audience_is_rejected() {
    let sk = signing_key(7);
    let mut cache = cache_with(&sk, Some("demo"));
    let jwt = token(&sk, r#"{"alg":"EdDSA","kid":"demo"}"#, &demo_payload(T));
    let opts = VerifyOptions::default().with_issuer("issuer").with_audience("other").with_now(T);
    let r = verify_ed25519_jwt_with_cache_at(&jwt, "mem://jwks", &mut cache, &opts, T, &no_fetch);
    assert!(matches!(r, Err(VerifyError::Audience)));
}

#[test]
fn unsupported_alg_is_rejected() {
    let sk = signing_key(7);
    let mut cache = cache_with(&sk, Some("demo"));
    for alg in ["HS256", "none", "RS256", "eddsa", "EdDSA "] {
        let header = format!(r#"{{"alg":"{}","kid":"demo"}}"#, alg);
        let jwt = token(&sk, &header, &demo_payload(T));
        let r = verify_ed25519_jwt_with_cache_at(&jwt, "mem://jwks", &mut cache, &VerifyOptions::default().with_now(T), T, &no_fetch);
        assert!(matches!(r, Err(VerifyError::Alg)), "alg {}", alg);
    }
    let forger = signing_key(8);
    let jwt = token(&forger, r#"{"alg":"HS256","kid":"demo"}"#, &demo_payload(T));
    let r = verify_ed25519_jwt_with_cache_at(&jwt, "mem://jwks", &mut cache, &VerifyOptions::default().with_now(T), T, &no_fetch);
    assert!(matches!(r, Err(VerifyError::Alg)));
    let jwt = token(&sk, r#"{"kid":"demo"}"#, &demo_payload(T));
    let r = verify_ed25519_jwt_with_cache_at(&jwt, "mem://jwks", &mut cache, &VerifyOptions::default(), T, &no_fetch);
    assert!(matches!(r, Err(VerifyError::Alg)));
}

#[test]
fn missing_or_empty_kid_is_rejected() {
    let sk = signing_key(7);
    let mut cache = cache_with(&sk, Some("demo"));
    for header in [r#"{"alg":"EdDSA"}"#, r#"{"alg":"EdDSA","kid":""}"#, r#"{"alg":"EdDSA","kid":5}"#] {
        let jwt = token(&sk, header, &demo_payload(T));
        let r = verify_ed25519_jwt_with_cache_at(&jwt, "mem://jwks", &mut cache, &VerifyOptions::default(), T, &no_fetch);
        assert!(matches!(r, Err(VerifyError::Kid)), "{}", header);
    }
}

#[test]
fn malformed_tokens_are_rejected() {
    let mut cache = JwksCache::new(60);
    let o = VerifyOptions::default();
    let r = verify_ed25519_jwt_with_cache_at("a.b", "mem://jwks", &mut cache, &o, T, &no_fetch);
    assert!(matches!(r, Err(VerifyError::BadFormat)));
    let r = verify_ed25519_jwt_with_cache_at("a.b.c.d", "mem://jwks", &mut cache, &o, T, &no_fetch);
    assert!(matches!(r, Err(VerifyError::BadFormat)));
    let r = verify_ed25519_jwt_with_cache_at("!!.e30.AA", "mem://jwks", &mut cache, &o, T, &no_fetch);
    assert!(matches!(r, Err(VerifyError::Base64)));
    let bad_utf8 = B64URL.encode([0xffu8, 0xfe]);
    let r = verify_ed25519_jwt_with_cache_at(&format!("{}.e30.AA", bad_utf8), "mem://jwks", &mut cache, &o, T, &no_fetch);
    assert!(matches!(r, Err(VerifyError::Base64)));
    let short_sig = format!("{}.{}.{}", B64URL.encode("{}"), B64URL.encode("{}"), B64URL.encode([1u8; 10]));
    let r = verify_ed25519_jwt_with_cache_at(&short_sig, "mem://jwks", &mut cache, &o, T, &no_fetch);
    assert!(matches!(r, Err(VerifyError::Signature)));
    let not_json = format!("{}.{}.{}", B64URL.encode("{"), B64URL.encode("{}"), B64URL.encode([1u8; 64]));
    let r = verify_ed25519_jwt_with_cache_at(&not_json, "mem://jwks", &mut cache, &o, T, &no_fetch);
    assert!(matches!(r, Err(VerifyError::Json)));
}

#[test]
fn signing_input_keeps_the_encoded_segments() {
    let h = B64URL.encode(r#"{"alg":"EdDSA",  "kid":"a"}"#);
    let p = B64URL.encode(r#"{"sub":"x"}"#);
    let s = B64URL.encode([3u8; 64]);
    let d = decode_token(&format!("{}.{}.{}", h, p, s)).ok().unwrap();
    assert_eq!(d.signing_input, format!("{}.{}", h, p));
    assert_eq!(d.header, r#"{"alg":"EdDSA",  "kid":"a"}"#);
    assert_eq!(d.signature, vec![3u8; 64]);
}

#[test]
fn foreign_signature_is_rejected() {
    let published = signing_key(1);
    let forger = signing_key(2);
    let mut cache = cache_with(&published, Some("demo"));
    let jwt = token(&forger, r#"{"alg":"EdDSA","kid":"demo"}"#, &demo_payload(T));
    let r = verify_ed25519_jwt_with_cache_at(&jwt, "mem://jwks", &mut cache, &VerifyOptions::default().with_now(T), T, &no_fetch);
    assert!(matches!(r, Err(VerifyError::Signature)));
}

#[test]
fn wildcard_and_missing_keys() {
    let sk = signing_key(3);
    let jwt = token(&sk, r#"{"alg":"EdDSA","kid":"anything"}"#, &demo_payload(T));
    let o = VerifyOptions::default().with_now(T);
    let mut cache = cache_with(&sk, None);
    let c = verify_ed25519_jwt_with_cache_at(&jwt, "mem://jwks", &mut cache, &o, T, &no_fetch).unwrap();
    assert_eq!(c.sub, "did:key:zDemo");
    let mut cache = cache_with(&sk, Some(""));
    assert!(verify_ed25519_jwt_with_cache_at(&jwt, "mem://jwks", &mut cache, &o, T, &no_fetch).is_ok());
    let mut cache = cache_with(&sk, Some("other"));
    let r = verify_ed25519_jwt_with_cache_at(&jwt, "mem://jwks", &mut cache, &o, T, &no_fetch);
    assert!(matches!(r, Err(VerifyError::NoKey)));
    let mut wrong_curve = jwk_for(&sk, None);
    wrong_curve.crv = Some("X25519".into());
    let mut bad_material = jwk_for(&sk, None);
    bad_material.x = Some("***".into());
    let mut cache = JwksCache::new(3600);
    cache.put("mem://jwks", Jwks { keys: vec![wrong_curve, bad_material, jwk_for(&sk, Some("anything"))] });
    assert!(verify_ed25519_jwt_with_cache_at(&jwt, "mem://jwks", &mut cache, &o, T, &no_fetch).is_ok());
}

#[test]
fn key_set_is_fetched_on_miss_and_cached() {
    let sk = signing_key(4);
    let jwt = token(&sk, r#"{"alg":"EdDSA","kid":"k1"}"#, &demo_payload(T));
    let doc = format!(
        r#"{{"keys":[{{"kty":"RSA","n":"abc"}},{{"kty":"OKP","crv":"Ed25519","x":"{}","kid":"k1"}}]}}"#,
        B64URL.encode(sk.verifying_key().to_bytes())
    );
    let fetch = |_u: &str| -> Result<String, String> { Ok(doc.clone()) };
    let mut cache = JwksCache::new(300);
    let o = VerifyOptions::default().with_now(T);
    let c = verify_ed25519_jwt_with_cache_at(&jwt, "https://k/jwks", &mut cache, &o, T, &fetch).unwrap();
    assert_eq!(c.sub, "did:key:zDemo");
    let cached = cache.get_fresh_at("https://k/jwks", T + 300).unwrap();
    assert_eq!(cached.keys.len(), 2);
    assert_eq!(cached.keys[1].kid.as_deref(), Some("k1"));
    assert!(cache.get_fresh_at("https://k/jwks", T + 301).is_none());
}

#[test]
fn fetch_failures_are_reported() {
    let sk = signing_key(5);
    let jwt = token(&sk, r#"{"alg":"EdDSA","kid":"k1"}"#, &demo_payload(T));
    let o = VerifyOptions::default().with_now(T);
    let mut cache = JwksCache::new(300);
    let r = verify_ed25519_jwt_with_cache_at(&jwt, "https://k/jwks", &mut cache, &o, T, &no_fetch);
    assert!(matches!(r, Err(VerifyError::JwksHttp(ref d)) if d == "offline"));
    let garbage = |_u: &str| -> Result<String, String> { Ok("<html>".to_string()) };
    let r = verify_ed25519_jwt_with_cache_at(&jwt, "https://k/jwks", &mut cache, &o, T, &garbage);
    assert!(matches!(r, Err(VerifyError::JwksJson)));
    assert!(cache.get_fresh_at("https://k/jwks", T).is_none());
}

#[test]
fn cache_freshness_follows_ttl() {
    let sk = signing_key(6);
    let mut cache = JwksCache::new(100);
    cache.put_at("u", Jwks { keys: vec![jwk_for(&sk, Some("a"))] }, T);
    assert_eq!(cache.get_fresh_at("u", T).unwrap().keys.len(), 1);
    assert!(cache.get_fresh_at("u", T + 100).is_some());
    assert!(cache.get_fresh_at("u", T + 101).is_none());
    assert!(cache.get_fresh_at("v", T).is_none());
    cache.put_at("u", Jwks { keys: vec![] }, T + 200);
    assert_eq!(cache.get_fresh_at("u", T + 250).unwrap().keys.len(), 0);
    cache.put("w", Jwks { keys: vec![] });
    assert!(cache.get_fresh("w").is_some());
}

#[test]
fn expiry_boundary() {
    let o = VerifyOptions::default();
    let mut c = claims("s");
    c.exp = Some(T - 300 - 1);
    assert!(matches!(check_claims_at(&c, &o, T), Err(VerifyError::Expired)));
    c.exp = Some(T - 300);
    assert!(check_claims_at(&c, &o, T).is_ok());
}

#[test]
fn not_before_boundary() {
    let o = VerifyOptions::default().with_leeway(10);
    let mut c = claims("s");
    c.nbf = Some(T + 11);
    assert!(matches!(check_claims_at(&c, &o, T), Err(VerifyError::NotYetValid)));
    c.nbf = Some(T + 10);
    assert!(check_claims_at(&c, &o, T).is_ok());
    let mut c = claims("s");
    c.iat = Some(T + 11);
    assert!(matches!(check_claims_at(&c, &o, T), Err(VerifyError::NotYetValid)));
}

#[test]
fn audience_matching() {
    let o = VerifyOptions::default().with_audience("api");
    let mut c = claims("s");
    assert!(matches!(check_claims_at(&c, &o, T), Err(VerifyError::Audience)));
    c.aud = Some(Aud::Many(vec!["web".into(), "api".into()]));
    assert!(check_claims_at(&c, &o, T).is_ok());
    c.aud = Some(Aud::Many(vec!["web".into(), "apis".into()]));
    assert!(matches!(check_claims_at(&c, &o, T), Err(VerifyError::Audience)));
    c.aud = Some(Aud::One("ap".into()));
    assert!(matches!(check_claims_at(&c, &o, T), Err(VerifyError::Audience)));
}

#[test]
fn issuer_and_sub_rules() {
    let o = VerifyOptions::default().with_issuer("iss");
    let mut c = claims("s");
    assert!(matches!(check_claims_at(&c, &o, T), Err(VerifyError::Issuer)));
    c.iss = Some("iss2".into());
    assert!(matches!(check_claims_at(&c, &o, T), Err(VerifyError::Issuer)));
    c.iss = Some("iss".into());
    assert!(check_claims_at(&c, &o, T).is_ok());
    let e = claims("");
    assert!(matches!(check_claims_at(&e, &o, T), Err(VerifyError::MissingSub)));
}

#[test]
fn claims_are_read_with_extras() {
    let c = parse_claims(&r#"{"sub":"a","aud":["x","y"],"exp":5,"iss":null,"custom":{"k":[1,2]},"n":3}"#.to_string()).ok().unwrap();
    assert_eq!(c.sub, "a");
    assert!(c.iss.is_none());
    assert_eq!(c.exp, Some(5));
    assert!(matches!(c.aud, Some(Aud::Many(ref v)) if v == &vec!["x".to_string(), "y".to_string()]));
    assert_eq!(c.extra, vec![("custom".to_string(), r#"{"k":[1,2]}"#.to_string()), ("n".to_string(), "3".to_string())]);
    assert!(matches!(parse_claims(&r#"{"iss":"a"}"#.to_string()), Err(VerifyError::Json)));
    assert!(matches!(parse_claims(&r#"{"sub":1}"#.to_string()), Err(VerifyError::Json)));
    assert!(matches!(parse_claims(&r#"{"sub":"a","exp":"soon"}"#.to_string()), Err(VerifyError::Json)));
    assert!(matches!(parse_claims(&r#"[1]"#.to_string()), Err(VerifyError::Json)));
    let e = parse_claims(&r#"{"sub":""}"#.to_string()).ok().unwrap();
    assert!(matches!(check_claims_at(&e, &VerifyOptions::default(), T), Err(VerifyError::MissingSub)));
}

#[test]
fn key_set_documents_are_read() {
    let j = parse_jwks(&r#"{"keys":[{"kty":"OKP","crv":"Ed25519","x":"AA","kid":"a","use":"sig"}]}"#.to_string()).ok().unwrap();
    assert_eq!(j.keys.len(), 1);
    assert_eq!(j.keys[0].kty, "OKP");
    assert_eq!(j.keys[0].x.as_deref(), Some("AA"));
    assert!(matches!(parse_jwks(&r#"{"keys":[{"crv":"Ed25519"}]}"#.to_string()), Err(VerifyError::JwksJson)));
    assert!(matches!(parse_jwks(&r#"{"other":[]}"#.to_string()), Err(VerifyError::JwksJson)));
}

#[test]
fn options_and_messages() {
    let o = VerifyOptions::default();
    assert_eq!(o.leeway_secs, 300);
    assert!(o.issuer.is_none() && o.audience.is_none() && o.now.is_none());
    let o = o.with_leeway(5).with_now(9).with_issuer("i").with_audience("a");
    assert_eq!((o.leeway_secs, o.now), (5, Some(9)));
    assert_eq!(o.issuer.as_deref(), Some("i"));
    assert_eq!(o.audience.as_deref(), Some("a"));
    assert_eq!(VerifyError::JwksHttp("x".into()).message(), "jwks http error: x");
    assert_eq!(VerifyError::Expired.message(), "claim 'exp' expired");
    assert!(now_ts() > 1_600_000_000);
}

#[test]
fn claims_at_wall_clock_and_extremes() {
    let mut c = claims("s");
    c.exp = Some(now_ts() + 3600);
    assert!(check_claims(&c, &VerifyOptions::default()).is_ok());
    c.exp = Some(now_ts() - 3600);
    assert!(matches!(check_claims(&c, &VerifyOptions::default()), Err(VerifyError::Expired)));
    assert!(check_claims(&c, &VerifyOptions::default().with_now(now_ts() - 3600)).is_ok());
    let mut c = claims("s");
    c.exp = Some(i64::MAX);
    c.nbf = Some(i64::MIN);
    c.iat = Some(i64::MIN);
    let o = VerifyOptions::default().with_leeway(i64::MAX);
    assert!(check_claims_at(&c, &o, i64::MAX).is_ok());
    c.exp = Some(i64::MIN);
    let o = VerifyOptions::default().with_leeway(i64::MIN);
    assert!(matches!(check_claims_at(&c, &o, i64::MAX), Err(VerifyError::Expired)));
}

#[test]
fn keys_resolve_in_document_order() {
    let a = signing_key(10);
    let b = signing_key(11);
    let jwks = Jwks { keys: vec![jwk_for(&a, Some("a")), jwk_for(&b, None), jwk_for(&a, Some("z"))] };
    assert_eq!(key_by_kid(&jwks, "a").unwrap(), a.verifying_key().to_bytes().to_vec());
    assert_eq!(key_by_kid(&jwks, "z").unwrap(), b.verifying_key().to_bytes().to_vec());
    let only_named = Jwks { keys: vec![jwk_for(&a, Some("a"))] };
    assert!(key_by_kid(&only_named, "b").is_none());
    assert!(key_by_kid(&Jwks { keys: vec![] }, "a").is_none());
}

#[test]
fn header_checks() {
    assert_eq!(check_header(&r#"{"alg":"EdDSA","kid":"k"}"#.to_string()).ok().unwrap(), "k");
    assert!(matches!(check_header(&r#"[1,2]"#.to_string()), Err(VerifyError::Alg)));
    assert!(matches!(check_header(&r#"{"alg":null,"kid":"k"}"#.to_string()), Err(VerifyError::Alg)));
    assert!(matches!(check_header(&r#"{"alg":"EdDSA","kid":null}"#.to_string()), Err(VerifyError::Kid)));
}
