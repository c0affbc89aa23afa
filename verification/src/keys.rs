//! The published signing keys and the lookup of one of them by identifier.

use vstd::prelude::*;
use vstd::string::StringExecFns;

verus! {

/// The characters of an optional text.
pub open spec fn optional_text(text: Option<String>) -> Option<Seq<char>> {
    match text {
        Some(text) => Some(text@),
        None => None,
    }
}

/// The characters of each text of an optional list.
pub open spec fn optional_texts(texts: Option<Vec<String>>) -> Option<Seq<Seq<char>>> {
    match texts {
        Some(texts) => Some(Seq::new(texts@.len(), |i: int| texts@[i]@)),
        None => None,
    }
}

/// One published public key.
#[derive(Debug, Clone)]
pub struct JWK {
    /// Key type, `"RSA"` for the keys this library can use.
    pub kty: String,
    /// Intended use of the key, such as `"sig"`.
    pub use_: Option<String>,
    /// Identifier by which a token header names the key.
    pub kid: String,
    /// Algorithm the key is meant for, such as `"RS256"`.
    pub alg: Option<String>,
    /// RSA modulus, unpadded base64url.
    pub n: String,
    /// RSA public exponent, unpadded base64url.
    pub e: String,
    /// X.509 certificate chain.
    pub x5c: Option<Vec<String>>,
    /// X.509 certificate SHA-1 thumbprint.
    pub x5t: Option<String>,
    /// X.509 certificate SHA-256 thumbprint.
    pub x5t_s256: Option<String>,
}

/// The mathematical value of a [`JWK`].
pub struct JwkView {
    pub kty: Seq<char>,
    pub use_: Option<Seq<char>>,
    pub kid: Seq<char>,
    pub alg: Option<Seq<char>>,
    pub n: Seq<char>,
    pub e: Seq<char>,
    pub x5c: Option<Seq<Seq<char>>>,
    pub x5t: Option<Seq<char>>,
    pub x5t_s256: Option<Seq<char>>,
}

impl View for JWK {
    type V = JwkView;

    open spec fn view(&self) -> JwkView {
        JwkView {
            kty: self.kty@,
            use_: optional_text(self.use_),
            kid: self.kid@,
            alg: optional_text(self.alg),
            n: self.n@,
            e: self.e@,
            x5c: optional_texts(self.x5c),
            x5t: optional_text(self.x5t),
            x5t_s256: optional_text(self.x5t_s256),
        }
    }
}

/// One snapshot of the issuer's published keys, in published order.
#[derive(Debug, Clone)]
pub struct GithubJWKS {
    pub keys: Vec<JWK>,
}

impl View for GithubJWKS {
    type V = Seq<JwkView>;

    open spec fn view(&self) -> Seq<JwkView> {
        Seq::new(self.keys@.len(), |i: int| self.keys@[i]@)
    }
}

/// Where an issuer publishes its keys: the path below its base URL.
pub open spec fn jwks_path() -> Seq<char> {
    "/.well-known/jwks"@
}

/// The address at which the issuer at `oidc_url` publishes its keys.
pub fn jwks_url(oidc_url: &str) -> (url: String)
    ensures
        url@ == oidc_url@ + jwks_path(),
{
    String::from_str(oidc_url).concat("/.well-known/jwks")
}

/// Whether position `at` holds the first key of `keys` that carries `kid`.
pub open spec fn is_first_with_kid(keys: Seq<JwkView>, kid: Seq<char>, at: int) -> bool {
    &&& 0 <= at < keys.len()
    &&& keys[at].kid == kid
    &&& forall|before: int| 0 <= before < at ==> keys[before].kid != kid
}

/// The position of the first key that carries `kid`, if any key does.
pub open spec fn position_of_kid(keys: Seq<JwkView>, kid: Seq<char>) -> Option<int> {
    if exists|at: int| is_first_with_kid(keys, kid, at) {
        Some(choose|at: int| is_first_with_kid(keys, kid, at))
    } else {
        None
    }
}

/// Whether no two keys of the snapshot share an identifier.
pub open spec fn kids_are_unique(keys: Seq<JwkView>) -> bool {
    forall|i: int, j: int| 0 <= i < j < keys.len() ==> keys[i].kid != keys[j].kid
}

/// The position that holds the first key with an identifier is the one
/// `position_of_kid` names.
pub proof fn lemma_position_of_kid(keys: Seq<JwkView>, kid: Seq<char>, at: int)
    requires
        is_first_with_kid(keys, kid, at),
    ensures
        position_of_kid(keys, kid) == Some(at),
{
    let chosen = choose|at: int| is_first_with_kid(keys, kid, at);
    if chosen < at {
        assert(keys[chosen].kid != kid);
    } else if at < chosen {
        assert(keys[at].kid != kid);
    }
}

/// A lookup misses exactly when no key of the snapshot carries the
/// identifier; an empty snapshot misses every identifier.
pub proof fn lemma_missing_kid(keys: Seq<JwkView>, kid: Seq<char>)
    ensures
        position_of_kid(keys, kid) is None <==> forall|i: int|
            0 <= i < keys.len() ==> keys[i].kid != kid,
{
    if exists|i: int| 0 <= i < keys.len() && keys[i].kid == kid {
        let found = choose|i: int| 0 <= i < keys.len() && keys[i].kid == kid;
        lemma_first_exists(keys, kid, found);
    }
}

/// Where some key up to `bound` carries the identifier, a first one does.
proof fn lemma_first_exists(keys: Seq<JwkView>, kid: Seq<char>, bound: int)
    requires
        0 <= bound < keys.len(),
        keys[bound].kid == kid,
    ensures
        exists|at: int| is_first_with_kid(keys, kid, at),
    decreases bound,
{
    if exists|before: int| 0 <= before < bound && keys[before].kid == kid {
        let before = choose|before: int| 0 <= before < bound && keys[before].kid == kid;
        lemma_first_exists(keys, kid, before);
    } else {
        assert(is_first_with_kid(keys, kid, bound));
    }
}

/// In a snapshot without repeated identifiers, the key a lookup finds is the
/// only key with that identifier.
pub proof fn lemma_unique_kid_found(keys: Seq<JwkView>, kid: Seq<char>, at: int)
    requires
        kids_are_unique(keys),
        0 <= at < keys.len(),
        keys[at].kid == kid,
    ensures
        position_of_kid(keys, kid) == Some(at),
{
    assert(is_first_with_kid(keys, kid, at));
    lemma_position_of_kid(keys, kid, at);
}

impl GithubJWKS {
    /// Finds the first key that carries the identifier `kid`.
    pub fn find_key(&self, kid: &str) -> (found: Option<&JWK>)
        ensures
            match found {
                Some(key) => position_of_kid(self@, kid@) matches Some(at) && *key
                    == self.keys@[at],
                None => position_of_kid(self@, kid@) is None,
            },
    {
        let mut at: usize = 0;
        while at < self.keys.len()
            invariant
                at <= self.keys@.len(),
                forall|before: int| 0 <= before < at ==> self@[before].kid != kid@,
            decreases self.keys@.len() - at,
        {
            let key = &self.keys[at];
            if crate::text::same_text(key.kid.as_str(), kid) {
                proof {
                    lemma_position_of_kid(self@, kid@, at as int);
                }
                return Some(key);
            }
            at += 1;
        }
        None
    }
}

} // verus!
