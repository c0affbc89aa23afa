//! Validation of GitHub Actions OIDC tokens against the issuer's published
//! signing keys.
//!
//! A token is validated against one snapshot of the key set: its header
//! names a key, the key verifies the RS256 signature, the registered claims
//! are checked, and the claims are bound to the organization and repository
//! that the caller expects. Fetching the key set and sharing it between
//! tasks is left to the caller.

pub mod claims;
pub mod error;
pub mod format;
pub mod jwt;
pub mod keys;
pub mod store;
pub mod text;
pub mod token;
pub mod validate;

pub use claims::GitHubClaims;
pub use error::{ErrorKind, ValidationError};
pub use format::is_jwt_shaped;
pub use keys::{jwks_url, GithubJWKS, JWK};
pub use store::KeySetStore;
pub use token::{DecodeFailure, JsonMember, SignatureAlgorithm, TokenHeader};
pub use validate::{conclude, validate_github_token};
