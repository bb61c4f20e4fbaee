//! Verification of Ed25519-signed compact JSON web tokens against a key-set
//! document, with a time-bounded key-set cache and claim validation.

mod outside;
pub mod types;
pub mod claims;
pub mod cache;
pub mod keys;
pub mod codec;
pub mod members;
pub mod payload;
pub mod keyset;
pub mod pipeline;
pub mod laws;

pub use types::{Aud, Claims, Jwk, Jwks, JwksCacheEntry, VerifyError, VerifyOptions, DEFAULT_LEEWAY_SECS};
pub use claims::{check_claims, check_claims_at};
pub use outside::now_ts;
pub use cache::JwksCache;
pub use keys::key_by_kid;
pub use codec::{decode_token, check_header, DecodedToken};
pub use payload::parse_claims;
pub use keyset::parse_jwks;
pub use pipeline::{resolve_jwks, verify_decoded, verify_ed25519_jwt_with_cache, verify_ed25519_jwt_with_cache_at};
