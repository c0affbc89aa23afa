//! The claims of a verified token: how they are read from the payload and
//! how they are bound to an expected organization and repository.

use vstd::prelude::*;
use vstd::string::StringExecFns;

use crate::error::{ErrorKind, ErrorView, ValidationError};
use crate::jwt::{json_member, json_members};
use crate::token::{optional_member, JsonMember, MemberView};
use crate::text::same_text;

verus! {

/// The claims of a GitHub Actions token.
#[derive(Debug, Clone)]
pub struct GitHubClaims {
    /// The subject of the token.
    pub subject: String,
    /// The full name of the repository.
    pub repository: String,
    /// The owner of the repository: a user or an organization.
    pub repository_owner: String,
    /// A reference to the job's workflow.
    pub job_workflow_ref: String,
    /// When the token was issued, in seconds since the epoch.
    pub iat: u64,
}

/// The mathematical value of a [`GitHubClaims`].
pub struct ClaimsView {
    pub subject: Seq<char>,
    pub repository: Seq<char>,
    pub repository_owner: Seq<char>,
    pub job_workflow_ref: Seq<char>,
    pub iat: u64,
}

impl View for GitHubClaims {
    type V = ClaimsView;

    open spec fn view(&self) -> ClaimsView {
        ClaimsView {
            subject: self.subject@,
            repository: self.repository@,
            repository_owner: self.repository_owner@,
            job_workflow_ref: self.job_workflow_ref@,
            iat: self.iat,
        }
    }
}

/// What a payload holds under the five claim names.
pub struct PayloadView {
    pub subject: Option<MemberView>,
    pub repository: Option<MemberView>,
    pub repository_owner: Option<MemberView>,
    pub job_workflow_ref: Option<MemberView>,
    pub iat: Option<MemberView>,
}

/// The characters of an optional expectation.
pub open spec fn expectation(expected: Option<&str>) -> Option<Seq<char>> {
    match expected {
        Some(expected) => Some(expected@),
        None => None,
    }
}

/// The value of a validation's result.
pub open spec fn result_view(result: Result<GitHubClaims, ValidationError>) -> Result<
    ClaimsView,
    ErrorView,
> {
    match result {
        Ok(claims) => Ok(claims@),
        Err(error) => Err(error@),
    }
}

/// Whether a validation failed with an error of the given kind.
pub open spec fn failed_as(result: Result<ClaimsView, ErrorView>, kind: ErrorKind) -> bool {
    result is Err && result->Err_0.kind == kind
}

/// Whether a member is present as text.
pub open spec fn is_text(member: Option<MemberView>) -> bool {
    member matches Some(MemberView::Text(_))
}

/// Whether a member is present as a non-negative integer.
pub open spec fn is_unsigned(member: Option<MemberView>) -> bool {
    member matches Some(MemberView::Unsigned(_))
}

/// The error for a claim that is missing or of the wrong shape.
pub open spec fn claim_failure(name: Seq<char>) -> ErrorView {
    ErrorView {
        kind: ErrorKind::ClaimsDecode,
        message: "Failed to decode token: missing or malformed claim "@ + name,
    }
}

/// The claims that a payload gives: all five must be present, `iat` as a
/// non-negative integer and the others as text. The first claim that is
/// not is the one reported.
pub open spec fn claims_of_payload(payload: PayloadView) -> Result<ClaimsView, ErrorView> {
    if !is_text(payload.subject) {
        Err(claim_failure("subject"@))
    } else if !is_text(payload.repository) {
        Err(claim_failure("repository"@))
    } else if !is_text(payload.repository_owner) {
        Err(claim_failure("repository_owner"@))
    } else if !is_text(payload.job_workflow_ref) {
        Err(claim_failure("job_workflow_ref"@))
    } else if !is_unsigned(payload.iat) {
        Err(claim_failure("iat"@))
    } else {
        Ok(
            ClaimsView {
                subject: payload.subject->0->Text_0,
                repository: payload.repository->0->Text_0,
                repository_owner: payload.repository_owner->0->Text_0,
                job_workflow_ref: payload.job_workflow_ref->0->Text_0,
                iat: payload.iat->0->Unsigned_0,
            },
        )
    }
}

/// The member of a JSON object under a name, if it has one.
pub open spec fn member_named(members: Map<Seq<char>, MemberView>, name: Seq<char>) -> Option<
    MemberView,
> {
    if members.contains_key(name) {
        Some(members[name])
    } else {
        None
    }
}

/// What a JSON object with these members holds under the five claim names.
pub open spec fn payload_of_members(members: Map<Seq<char>, MemberView>) -> PayloadView {
    PayloadView {
        subject: member_named(members, "subject"@),
        repository: member_named(members, "repository"@),
        repository_owner: member_named(members, "repository_owner"@),
        job_workflow_ref: member_named(members, "job_workflow_ref"@),
        iat: member_named(members, "iat"@),
    }
}

/// Whether the claims are bound to what is expected: each expectation that
/// is configured must equal its claim, character for character.
pub open spec fn is_bound(
    claims: ClaimsView,
    organization: Option<Seq<char>>,
    repository: Option<Seq<char>>,
) -> bool {
    &&& organization matches Some(expected) ==> claims.repository_owner == expected
    &&& repository matches Some(expected) ==> claims.repository == expected
}

/// The outcome of binding claims to what is expected. The organization is
/// checked before the repository.
pub open spec fn binding(
    claims: ClaimsView,
    organization: Option<Seq<char>>,
    repository: Option<Seq<char>>,
) -> Result<ClaimsView, ErrorView> {
    if organization is Some && claims.repository_owner != organization->0 {
        Err(
            ErrorView {
                kind: ErrorKind::OrganizationMismatch,
                message: "Token is not from the expected organization"@,
            },
        )
    } else if repository is Some && claims.repository != repository->0 {
        Err(
            ErrorView {
                kind: ErrorKind::RepositoryMismatch,
                message: "Token is not from the expected repository"@,
            },
        )
    } else {
        Ok(claims)
    }
}

/// Reads a claim that must be text.
fn text_claim(member: Option<JsonMember>, name: &str) -> (claim: Result<String, ValidationError>)
    ensures
        match claim {
            Ok(text) => optional_member(member) == Some(MemberView::Text(text@)),
            Err(error) => !is_text(optional_member(member)) && error@ == claim_failure(
                name@,
            ),
        },
{
    match member {
        Some(JsonMember::Text(text)) => Ok(text),
        _ => Err(claim_error(name)),
    }
}

/// The error for a claim that is missing or of the wrong shape.
fn claim_error(name: &str) -> (error: ValidationError)
    ensures
        error@ == claim_failure(name@),
{
    let message = String::from_str("Failed to decode token: missing or malformed claim ").concat(
        name,
    );
    ValidationError { kind: ErrorKind::ClaimsDecode, message }
}

impl GitHubClaims {
    /// Builds the claims from what a payload holds under the five claim
    /// names.
    pub fn from_members(
        subject: Option<JsonMember>,
        repository: Option<JsonMember>,
        repository_owner: Option<JsonMember>,
        job_workflow_ref: Option<JsonMember>,
        iat: Option<JsonMember>,
    ) -> (result: Result<GitHubClaims, ValidationError>)
        ensures
            result_view(result) == claims_of_payload(
                PayloadView {
                    subject: optional_member(subject),
                    repository: optional_member(repository),
                    repository_owner: optional_member(repository_owner),
                    job_workflow_ref: optional_member(job_workflow_ref),
                    iat: optional_member(iat),
                },
            ),
    {
        let subject = match text_claim(subject, "subject") {
            Ok(text) => text,
            Err(error) => return Err(error),
        };
        let repository = match text_claim(repository, "repository") {
            Ok(text) => text,
            Err(error) => return Err(error),
        };
        let repository_owner = match text_claim(repository_owner, "repository_owner") {
            Ok(text) => text,
            Err(error) => return Err(error),
        };
        let job_workflow_ref = match text_claim(job_workflow_ref, "job_workflow_ref") {
            Ok(text) => text,
            Err(error) => return Err(error),
        };
        let iat = match iat {
            Some(JsonMember::Unsigned(seconds)) => seconds,
            _ => return Err(claim_error("iat")),
        };
        Ok(GitHubClaims { subject, repository, repository_owner, job_workflow_ref, iat })
    }

    /// Reads the claims from a verified payload.
    pub fn from_payload(payload: &serde_json::Value) -> (result: Result<
        GitHubClaims,
        ValidationError,
    >)
        ensures
            result_view(result) == claims_of_payload(payload_of_members(json_members(*payload))),
    {
        let subject = json_member(payload, "subject");
        let repository = json_member(payload, "repository");
        let repository_owner = json_member(payload, "repository_owner");
        let job_workflow_ref = json_member(payload, "job_workflow_ref");
        let iat = json_member(payload, "iat");
        GitHubClaims::from_members(subject, repository, repository_owner, job_workflow_ref, iat)
    }

    /// Binds the claims to the expected organization and repository, each
    /// checked only where it is configured.
    pub fn bind(self, organization: Option<&str>, repository: Option<&str>) -> (result: Result<
        GitHubClaims,
        ValidationError,
    >)
        ensures
            result_view(result) == binding(
                self@,
                expectation(organization),
                expectation(repository),
            ),
    {
        if let Some(expected) = organization {
            if !same_text(self.repository_owner.as_str(), expected) {
                return Err(
                    ValidationError::new(
                        ErrorKind::OrganizationMismatch,
                        "Token is not from the expected organization",
                    ),
                );
            }
        }
        if let Some(expected) = repository {
            if !same_text(self.repository.as_str(), expected) {
                return Err(
                    ValidationError::new(
                        ErrorKind::RepositoryMismatch,
                        "Token is not from the expected repository",
                    ),
                );
            }
        }
        Ok(self)
    }
}

/// Claims that pass the binding are bound to every configured expectation,
/// and pass unchanged; claims that are bound always pass.
pub proof fn lemma_binding_accepts_exactly_the_bound(
    claims: ClaimsView,
    organization: Option<Seq<char>>,
    repository: Option<Seq<char>>,
)
    ensures
        binding(claims, organization, repository) is Ok <==> is_bound(
            claims,
            organization,
            repository,
        ),
        binding(claims, organization, repository) is Ok ==> binding(
            claims,
            organization,
            repository,
        ) == Ok::<ClaimsView, ErrorView>(claims),
        binding(claims, None, None) == Ok::<ClaimsView, ErrorView>(claims),
{
}

/// A mismatched organization is reported as such whatever the repository
/// expectation; a mismatched repository is reported once the organization
/// passes.
pub proof fn lemma_binding_failures(
    claims: ClaimsView,
    organization: Option<Seq<char>>,
    repository: Option<Seq<char>>,
)
    ensures
        organization is Some && claims.repository_owner != organization->0 ==> failed_as(
            binding(claims, organization, repository),
            ErrorKind::OrganizationMismatch,
        ),
        is_bound(claims, organization, None) && repository is Some && claims.repository
            != repository->0 ==> failed_as(
            binding(claims, organization, repository),
            ErrorKind::RepositoryMismatch,
        ),
{
}

} // verus!
