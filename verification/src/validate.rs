//! Validation of one token against one snapshot of the published keys.

use vstd::prelude::*;

use crate::claims::{
    binding, claims_of_payload, expectation, is_bound, payload_of_members, result_view,
    ClaimsView, GitHubClaims, PayloadView,
};
use crate::error::{decode_failure, failure_kind, ErrorKind, ErrorView, ValidationError};
use crate::format::{has_jwt_structure, is_jwt_shaped};
use crate::jwt::{
    checks_of, decode_header, decode_payload, expect_audience, failure_of, json_members,
    jwt_header, jwt_payload_members, require_claims, rs256_validation, rsa_components_accepted,
    skip_audience, skip_signature,
};
use crate::keys::{
    is_first_with_kid, lemma_missing_kid, lemma_position_of_kid, position_of_kid, GithubJWKS,
    JwkView, JWK,
};
use crate::token::{
    is_temporal, ChecksView, DecodeFailure, ReasonView, HeaderView, MemberView,
    SignatureAlgorithm, TokenHeader,
};

verus! {

/// What a verification handed back: the members of the payload, or the
/// reason for turning the token down with its detail.
pub enum DecodedView {
    Payload(Map<Seq<char>, MemberView>),
    Failure(ReasonView, Seq<char>),
}

/// The value of what a verification handed back.
pub open spec fn decoded_view(decoded: Result<serde_json::Value, (DecodeFailure, String)>) -> DecodedView {
    match decoded {
        Ok(payload) => DecodedView::Payload(json_members(payload)),
        Err(failure) => DecodedView::Failure(failure.0@, failure.1@),
    }
}

/// The key a header resolves to in a snapshot: the position of the first
/// key with the header's identifier. A header without an identifier
/// resolves to no key and is turned down as undecodable.
pub open spec fn resolution(header: HeaderView, keys: Seq<JwkView>) -> Result<int, ErrorKind> {
    match header.kid {
        None => Err(ErrorKind::HeaderDecode),
        Some(kid) => match position_of_kid(keys, kid) {
            None => Err(ErrorKind::KeyNotFound),
            Some(at) => Ok(at),
        },
    }
}

/// Everything that is decided before the signature is looked at, in order:
/// the structure of the token, its header, the key the header names,
/// whether that key can be constructed, and the declared algorithm. The
/// result is the position of the key to verify with, or the kind of the
/// failure.
pub open spec fn screening(token: Seq<char>, keys: Seq<JwkView>) -> Result<int, ErrorKind> {
    if !has_jwt_structure(token) {
        Err(ErrorKind::MalformedToken)
    } else {
        match jwt_header(token) {
            None => Err(ErrorKind::HeaderDecode),
            Some(header) => match resolution(header, keys) {
                Err(kind) => Err(kind),
                Ok(at) => if !rsa_components_accepted(keys[at].n, keys[at].e) {
                    Err(ErrorKind::KeyConstruction)
                } else if header.algorithm != SignatureAlgorithm::Rs256 {
                    Err(ErrorKind::AlgorithmMismatch)
                } else {
                    Ok(at)
                },
            },
        }
    }
}

/// What the temporal verification asks of a token: an expiry that has not
/// passed, and neither signature nor audience.
pub open spec fn temporal_checks() -> ChecksView {
    ChecksView {
        signature: false,
        audience: false,
        audiences: Set::<Seq<char>>::empty(),
        required_claims: Set::<Seq<char>>::empty().insert("exp"@),
    }
}

/// What the full verification asks of a token: its signature and an expiry
/// that has not passed, always; and, exactly where an audience is
/// expected, an audience claim that names it.
pub open spec fn full_checks(expected_audience: Option<Seq<char>>) -> ChecksView {
    match expected_audience {
        Some(audience) => ChecksView {
            signature: true,
            audience: true,
            audiences: Set::<Seq<char>>::empty().insert(audience),
            required_claims: Set::<Seq<char>>::empty().insert("exp"@).insert("aud"@),
        },
        None => ChecksView {
            signature: true,
            audience: false,
            audiences: Set::<Seq<char>>::empty(),
            required_claims: Set::<Seq<char>>::empty().insert("exp"@),
        },
    }
}

/// What a validation makes of a full verification: its failure under the
/// kind callers branch on, or the payload's claims bound to what is
/// expected.
pub open spec fn conclusion(
    decoded: DecodedView,
    organization: Option<Seq<char>>,
    repository: Option<Seq<char>>,
) -> Result<ClaimsView, ErrorView> {
    match decoded {
        DecodedView::Failure(failure, detail) => Err(decode_failure(failure, detail)),
        DecodedView::Payload(members) => match claims_of_payload(payload_of_members(members)) {
            Err(error) => Err(error),
            Ok(claims) => binding(claims, organization, repository),
        },
    }
}

/// What a validation returns once the temporal verification has handed
/// back `temporal` and the full verification `decoded`: a violated
/// temporal claim is reported first, whatever the full verification found;
/// otherwise the full verification decides.
pub open spec fn verdict(
    temporal: DecodedView,
    decoded: DecodedView,
    organization: Option<Seq<char>>,
    repository: Option<Seq<char>>,
) -> Result<ClaimsView, ErrorView> {
    if temporal is Failure && is_temporal(temporal->Failure_0) {
        Err(decode_failure(temporal->Failure_0, temporal->Failure_1))
    } else {
        conclusion(decoded, organization, repository)
    }
}

/// The validation for the temporal verification.
pub fn temporal_validation() -> (validation: jsonwebtoken::Validation)
    ensures
        checks_of(validation) == temporal_checks(),
{
    let mut validation = rs256_validation();
    skip_signature(&mut validation);
    skip_audience(&mut validation);
    validation
}

/// The validation for the full verification: the audience is checked
/// exactly where one is expected, and then an audience claim must be
/// present.
pub fn validation_for(expected_audience: Option<&str>) -> (validation: jsonwebtoken::Validation)
    ensures
        checks_of(validation) == full_checks(expectation(expected_audience)),
{
    let mut validation = rs256_validation();
    match expected_audience {
        Some(audience) => {
            expect_audience(&mut validation, audience);
            require_claims(&mut validation, "exp", "aud");
        },
        None => {
            skip_audience(&mut validation);
        },
    }
    validation
}

/// Makes a verification and hands back its payload, or its failure as
/// plain values.
fn verify(token: &str, key: &jsonwebtoken::DecodingKey, validation: &jsonwebtoken::Validation) -> (decoded:
    Result<serde_json::Value, (DecodeFailure, String)>)
    ensures
        decoded matches Ok(payload) ==> json_members(payload) == jwt_payload_members(token@),
{
    match decode_payload(token, key, validation) {
        Ok(payload) => Ok(payload),
        Err(error) => Err((failure_of(&error), error.to_string())),
    }
}

impl GithubJWKS {
    /// Resolves the key that a header names in this snapshot.
    pub fn resolve_key(&self, header: &TokenHeader) -> (resolved: Result<&JWK, ValidationError>)
        ensures
            match resolved {
                Ok(key) => resolution(header@, self@) matches Ok(at) && *key == self.keys@[at],
                Err(error) => resolution(header@, self@) == Err::<int, ErrorKind>(error.kind)
                    && error.message@ == (match error.kind {
                    ErrorKind::HeaderDecode => "Failed to decode header: no key identifier"@,
                    _ => "Matching key not found in JWKS"@,
                }),
            },
    {
        match &header.kid {
            None => Err(
                ValidationError::new(
                    ErrorKind::HeaderDecode,
                    "Failed to decode header: no key identifier",
                ),
            ),
            Some(kid) => match self.find_key(kid.as_str()) {
                None => Err(
                    ValidationError::new(ErrorKind::KeyNotFound, "Matching key not found in JWKS"),
                ),
                Some(key) => Ok(key),
            },
        }
    }

    /// Validates a token against a snapshot of the published keys.
    ///
    /// The steps run in order and the first failure ends the validation:
    /// the token's first segment must encode a JSON object with an
    /// algorithm field; its header must decode and name a key; the snapshot
    /// must hold that key; the key's modulus and exponent must make a
    /// verification key; the declared algorithm must be RS256; the temporal
    /// claims must hold; signature and audience must verify, the audience
    /// exactly where one is expected; the payload must hold the five
    /// claims; and the claims must be bound to the expected organization
    /// and repository, each where configured.
    ///
    /// Up to the declared algorithm the outcome is fixed by the token and
    /// the snapshot. The verifications read the clock, so from there on the
    /// contract states what holds of every outcome: the result is the
    /// [`verdict`] on what they handed back, and claims that are accepted
    /// are those of the token's own payload.
    pub fn validate_github_token(
        token: &str,
        jwks: &GithubJWKS,
        expected_audience: Option<&str>,
        expected_organization: Option<&str>,
        expected_repository: Option<&str>,
    ) -> (result: Result<GitHubClaims, ValidationError>)
        ensures
            match screening(token@, jwks@) {
                Err(kind) => result is Err && result->Err_0.kind == kind,
                Ok(_) => exists|temporal: DecodedView, decoded: DecodedView|
                    result_view(result) == #[trigger] verdict(
                        temporal,
                        decoded,
                        expectation(expected_organization),
                        expectation(expected_repository),
                    ),
            },
            result is Ok ==> result_view(result) == conclusion(
                DecodedView::Payload(jwt_payload_members(token@)),
                expectation(expected_organization),
                expectation(expected_repository),
            ),
            result matches Ok(claims) ==> is_bound(
                claims@,
                expectation(expected_organization),
                expectation(expected_repository),
            ),
    {
        if !is_jwt_shaped(token) {
            return Err(
                ValidationError::new(
                    ErrorKind::MalformedToken,
                    "Invalid token format. Expected a JWT.",
                ),
            );
        }
        let header = match decode_header(token) {
            Ok(header) => header,
            Err(error) => {
                return Err(ValidationError::from_header_failure(error.to_string().as_str()));
            },
        };
        let key = match jwks.resolve_key(&header) {
            Ok(key) => key,
            Err(error) => {
                return Err(error);
            },
        };
        let decoding_key = match jsonwebtoken::DecodingKey::from_rsa_components(
            key.n.as_str(),
            key.e.as_str(),
        ) {
            Ok(decoding_key) => decoding_key,
            Err(error) => {
                return Err(ValidationError::from_key_failure(error.to_string().as_str()));
            },
        };
        match header.require_rs256() {
            Ok(_) => {},
            Err(error) => {
                return Err(error);
            },
        }
        let temporal = verify(token, &decoding_key, &temporal_validation());
        let decoded = verify(token, &decoding_key, &validation_for(expected_audience));
        let result = conclude(temporal, decoded, expected_organization, expected_repository);
        assert(result_view(result) == verdict(
            decoded_view(temporal),
            decoded_view(decoded),
            expectation(expected_organization),
            expectation(expected_repository),
        ));
        result
    }
}

/// Concludes a validation from what the two verifications handed back: a
/// violated temporal claim is reported first; then a failure of the full
/// verification, under its kind; then a payload that does not hold the
/// five claims; then claims that are not bound to what is expected.
pub fn conclude(
    temporal: Result<serde_json::Value, (DecodeFailure, String)>,
    decoded: Result<serde_json::Value, (DecodeFailure, String)>,
    expected_organization: Option<&str>,
    expected_repository: Option<&str>,
) -> (result: Result<GitHubClaims, ValidationError>)
    ensures
        result_view(result) == verdict(
            decoded_view(temporal),
            decoded_view(decoded),
            expectation(expected_organization),
            expectation(expected_repository),
        ),
{
    if let Err(failure) = &temporal {
        if failure.0.is_temporal() {
            return Err(ValidationError::from_decode_failure(&failure.0, failure.1.as_str()));
        }
    }
    match decoded {
        Err(failure) => Err(ValidationError::from_decode_failure(&failure.0, failure.1.as_str())),
        Ok(payload) => match GitHubClaims::from_payload(&payload) {
            Err(error) => Err(error),
            Ok(claims) => claims.bind(expected_organization, expected_repository),
        },
    }
}

/// Validates a token against a snapshot of the published keys: see
/// [`GithubJWKS::validate_github_token`].
pub fn validate_github_token(
    token: &str,
    jwks: &GithubJWKS,
    expected_audience: Option<&str>,
    expected_organization: Option<&str>,
    expected_repository: Option<&str>,
) -> (result: Result<GitHubClaims, ValidationError>)
    ensures
        match screening(token@, jwks@) {
            Err(kind) => result is Err && result->Err_0.kind == kind,
            Ok(_) => exists|temporal: DecodedView, decoded: DecodedView|
                result_view(result) == #[trigger] verdict(
                    temporal,
                    decoded,
                    expectation(expected_organization),
                    expectation(expected_repository),
                ),
        },
        result is Ok ==> result_view(result) == conclusion(
            DecodedView::Payload(jwt_payload_members(token@)),
            expectation(expected_organization),
            expectation(expected_repository),
        ),
        result matches Ok(claims) ==> is_bound(
            claims@,
            expectation(expected_organization),
            expectation(expected_repository),
        ),
{
    GithubJWKS::validate_github_token(
        token,
        jwks,
        expected_audience,
        expected_organization,
        expected_repository,
    )
}

/// A token whose first segment does not encode a JSON object with an
/// algorithm field is turned down as malformed whatever the snapshot
/// holds: no key is looked up for it.
pub proof fn lemma_malformed_before_lookup(token: Seq<char>, keys: Seq<JwkView>)
    ensures
        !has_jwt_structure(token) ==> screening(token, keys) == Err::<int, ErrorKind>(
            ErrorKind::MalformedToken,
        ),
{
}

/// A token that has the structure of a JWT and whose header names a key
/// that no key of the snapshot carries is turned down with `KeyNotFound`,
/// whatever else the token holds; so is every such token against an empty
/// snapshot.
pub proof fn lemma_unknown_kid_is_not_found(token: Seq<char>, keys: Seq<JwkView>)
    ensures
        has_jwt_structure(token) && jwt_header(token) is Some && jwt_header(token)->0.kid is Some
            && (forall|i: int| 0 <= i < keys.len() ==> keys[i].kid != jwt_header(token)->0.kid->0)
            ==> screening(token, keys) == Err::<int, ErrorKind>(ErrorKind::KeyNotFound),
{
    if jwt_header(token) is Some && jwt_header(token)->0.kid is Some {
        lemma_missing_kid(keys, jwt_header(token)->0.kid->0);
    }
}

/// A token that declares an algorithm other than RS256 is turned down with
/// `AlgorithmMismatch` even though the snapshot holds the key it names,
/// provided that key can be constructed.
pub proof fn lemma_other_algorithm_is_mismatch(token: Seq<char>, keys: Seq<JwkView>, at: int)
    ensures
        has_jwt_structure(token) && jwt_header(token) is Some && jwt_header(token)->0.algorithm
            != SignatureAlgorithm::Rs256 && jwt_header(token)->0.kid is Some && is_first_with_kid(
            keys,
            jwt_header(token)->0.kid->0,
            at,
        ) && rsa_components_accepted(keys[at].n, keys[at].e) ==> screening(token, keys) == Err::<
            int,
            ErrorKind,
        >(ErrorKind::AlgorithmMismatch),
{
    if jwt_header(token) is Some && jwt_header(token)->0.kid is Some && is_first_with_kid(
        keys,
        jwt_header(token)->0.kid->0,
        at,
    ) {
        lemma_position_of_kid(keys, jwt_header(token)->0.kid->0, at);
    }
}

/// With nothing expected of organization and repository, a payload that
/// holds the five claims in their shapes comes back as exactly those
/// claims.
pub proof fn lemma_claims_round_trip(members: Map<Seq<char>, MemberView>, claims: ClaimsView)
    ensures
        payload_of_members(members) == (PayloadView {
            subject: Some(MemberView::Text(claims.subject)),
            repository: Some(MemberView::Text(claims.repository)),
            repository_owner: Some(MemberView::Text(claims.repository_owner)),
            job_workflow_ref: Some(MemberView::Text(claims.job_workflow_ref)),
            iat: Some(MemberView::Unsigned(claims.iat)),
        }) ==> conclusion(DecodedView::Payload(members), None, None) == Ok::<
            ClaimsView,
            ErrorView,
        >(claims),
{
}

/// Whatever a validation accepts is bound to every configured expectation,
/// and comes from a payload that the full verification handed out: no
/// failure leads to claims.
pub proof fn lemma_accepted_claims_are_bound(
    temporal: DecodedView,
    decoded: DecodedView,
    organization: Option<Seq<char>>,
    repository: Option<Seq<char>>,
)
    ensures
        verdict(temporal, decoded, organization, repository) matches Ok(claims) ==> is_bound(
            claims,
            organization,
            repository,
        ) && decoded is Payload && claims_of_payload(payload_of_members(decoded->Payload_0))
            == Ok::<ClaimsView, ErrorView>(claims),
{
}

/// A violated temporal claim is reported as `ExpiredOrNotYetValid`
/// whatever the full verification found, and so whether or not the
/// signature is valid, and whatever is expected.
pub proof fn lemma_expiry_is_reported_first(
    failure: ReasonView,
    detail: Seq<char>,
    decoded: DecodedView,
    organization: Option<Seq<char>>,
    repository: Option<Seq<char>>,
)
    ensures
        is_temporal(failure) ==> verdict(
            DecodedView::Failure(failure, detail),
            decoded,
            organization,
            repository,
        ) == Err::<ClaimsView, ErrorView>(decode_failure(failure, detail)) && failure_kind(failure)
            == ErrorKind::ExpiredOrNotYetValid,
{
}

/// A failed full verification is reported under its kind whatever is
/// expected of organization and repository: a wrong or missing audience
/// as `AudienceMismatch`, a wrong algorithm as `AlgorithmMismatch`, an
/// expired or immature token as `ExpiredOrNotYetValid`.
pub proof fn lemma_failures_are_reported(
    failure: ReasonView,
    detail: Seq<char>,
    organization: Option<Seq<char>>,
    repository: Option<Seq<char>>,
)
    ensures
        conclusion(DecodedView::Failure(failure, detail), organization, repository) == Err::<
            ClaimsView,
            ErrorView,
        >(decode_failure(failure, detail)),
        failure == ReasonView::ExpiredSignature || failure == ReasonView::ImmatureSignature
            ==> failure_kind(failure) == ErrorKind::ExpiredOrNotYetValid,
        failure == ReasonView::InvalidAudience || failure == ReasonView::MissingRequiredClaim(
            "aud"@,
        ) ==> failure_kind(failure) == ErrorKind::AudienceMismatch,
        failure == ReasonView::InvalidAlgorithm ==> failure_kind(failure)
            == ErrorKind::AlgorithmMismatch,
{
    assert("aud"@ != "exp"@) by {
        reveal_strlit("aud");
        reveal_strlit("exp");
        assert("aud"@[0] != "exp"@[0]);
    }
}

/// Each expectation is applied only where it is configured: what is
/// accepted with an organization or a repository expected is accepted
/// alike with either or both left out.
pub proof fn lemma_dropping_expectations(
    decoded: DecodedView,
    organization: Option<Seq<char>>,
    repository: Option<Seq<char>>,
)
    ensures
        conclusion(decoded, organization, repository) is Ok ==> {
            &&& conclusion(decoded, None, repository) == conclusion(
                decoded,
                organization,
                repository,
            )
            &&& conclusion(decoded, organization, None) == conclusion(
                decoded,
                organization,
                repository,
            )
            &&& conclusion(decoded, None, None) == conclusion(decoded, organization, repository)
        },
{
}

/// Dropping the expected audience drops checks and adds none: the full
/// verification without an expected audience asks nothing of the audience
/// claim, and otherwise what it asks with one.
pub proof fn lemma_dropping_the_audience(audience: Seq<char>)
    ensures
        !full_checks(None).audience,
        full_checks(None).signature == full_checks(Some(audience)).signature,
        full_checks(None).required_claims.subset_of(full_checks(Some(audience)).required_claims),
{
}

} // verus!
