//! What validation reads from a token and from the verification of its
//! signature, as plain values.

use vstd::prelude::*;

use crate::error::{ErrorKind, ErrorView, ValidationError};
use crate::text::same_text;

verus! {

/// The signature algorithm a header declares.
#[derive(Debug, Clone, Copy, PartialEq, Eq, Structural)]
pub enum SignatureAlgorithm {
    /// HMAC with SHA-256.
    Hs256,
    /// HMAC with SHA-384.
    Hs384,
    /// HMAC with SHA-512.
    Hs512,
    /// ECDSA with SHA-256.
    Es256,
    /// ECDSA with SHA-384.
    Es384,
    /// RSASSA-PKCS1-v1_5 with SHA-256, the only algorithm accepted.
    Rs256,
    /// RSASSA-PKCS1-v1_5 with SHA-384.
    Rs384,
    /// RSASSA-PKCS1-v1_5 with SHA-512.
    Rs512,
    /// RSASSA-PSS with SHA-256.
    Ps256,
    /// RSASSA-PSS with SHA-384.
    Ps384,
    /// RSASSA-PSS with SHA-512.
    Ps512,
    /// Edwards-curve signatures.
    EdDsa,
}

/// What validation reads from a token's header segment.
#[derive(Debug)]
pub struct TokenHeader {
    pub algorithm: SignatureAlgorithm,
    pub kid: Option<String>,
}

/// The mathematical value of a [`TokenHeader`].
pub struct HeaderView {
    pub algorithm: SignatureAlgorithm,
    pub kid: Option<Seq<char>>,
}

impl View for TokenHeader {
    type V = HeaderView;

    open spec fn view(&self) -> HeaderView {
        HeaderView {
            algorithm: self.algorithm,
            kid: match self.kid {
                Some(kid) => Some(kid@),
                None => None,
            },
        }
    }
}

/// What a verification asks of a token.
pub struct ChecksView {
    /// Whether the signature is verified.
    pub signature: bool,
    /// Whether an audience claim is held against the audiences.
    pub audience: bool,
    /// The audiences of which the audience claim must name one.
    pub audiences: Set<Seq<char>>,
    /// The registered claims that must be present.
    pub required_claims: Set<Seq<char>>,
}

/// Why signature and claim verification turned a token down.
#[derive(Debug, Clone)]
pub enum DecodeFailure {
    /// The header's algorithm is not the one asked for.
    InvalidAlgorithm,
    /// The audience claim names none of the expected audiences.
    InvalidAudience,
    /// The expiry lies in the past.
    ExpiredSignature,
    /// The not-before time lies in the future.
    ImmatureSignature,
    /// The named claim must be present and is not.
    MissingRequiredClaim(String),
    /// The signature does not match the signed text under the key.
    InvalidSignature,
    /// Anything else: the segments, their encoding or their JSON.
    Other,
}

/// The mathematical value of a [`DecodeFailure`].
pub enum ReasonView {
    InvalidAlgorithm,
    InvalidAudience,
    ExpiredSignature,
    ImmatureSignature,
    MissingRequiredClaim(Seq<char>),
    InvalidSignature,
    Other,
}

impl View for DecodeFailure {
    type V = ReasonView;

    open spec fn view(&self) -> ReasonView {
        match self {
            DecodeFailure::InvalidAlgorithm => ReasonView::InvalidAlgorithm,
            DecodeFailure::InvalidAudience => ReasonView::InvalidAudience,
            DecodeFailure::ExpiredSignature => ReasonView::ExpiredSignature,
            DecodeFailure::ImmatureSignature => ReasonView::ImmatureSignature,
            DecodeFailure::MissingRequiredClaim(name) => ReasonView::MissingRequiredClaim(name@),
            DecodeFailure::InvalidSignature => ReasonView::InvalidSignature,
            DecodeFailure::Other => ReasonView::Other,
        }
    }
}

/// Whether a failure is a violated temporal claim: an expiry in the past,
/// a not-before time in the future, or no expiry at all.
pub open spec fn is_temporal(failure: ReasonView) -> bool {
    match failure {
        ReasonView::ExpiredSignature => true,
        ReasonView::ImmatureSignature => true,
        ReasonView::MissingRequiredClaim(name) => name == "exp"@,
        _ => false,
    }
}

/// One member of a JSON object, as far as claims are read from it.
#[derive(Debug, Clone)]
pub enum JsonMember {
    /// A string.
    Text(String),
    /// A non-negative integer that fits 64 bits.
    Unsigned(u64),
    /// Any other JSON value.
    Other,
}

/// The mathematical value of a [`JsonMember`].
pub enum MemberView {
    Text(Seq<char>),
    Unsigned(u64),
    Other,
}

impl View for JsonMember {
    type V = MemberView;

    open spec fn view(&self) -> MemberView {
        match self {
            JsonMember::Text(text) => MemberView::Text(text@),
            JsonMember::Unsigned(number) => MemberView::Unsigned(*number),
            JsonMember::Other => MemberView::Other,
        }
    }
}

/// The value of an optional member.
pub open spec fn optional_member(member: Option<JsonMember>) -> Option<MemberView> {
    match member {
        Some(member) => Some(member@),
        None => None,
    }
}

impl TokenHeader {
    /// Accepts the header only where it declares RS256.
    pub fn require_rs256(&self) -> (accepted: Result<(), ValidationError>)
        ensures
            match accepted {
                Ok(_) => self.algorithm == SignatureAlgorithm::Rs256,
                Err(error) => self.algorithm != SignatureAlgorithm::Rs256 && error@ == (ErrorView {
                    kind: ErrorKind::AlgorithmMismatch,
                    message: "Token is not signed with RS256"@,
                }),
            },
    {
        match self.algorithm {
            SignatureAlgorithm::Rs256 => Ok(()),
            _ => Err(
                ValidationError::new(
                    ErrorKind::AlgorithmMismatch,
                    "Token is not signed with RS256",
                ),
            ),
        }
    }
}

impl DecodeFailure {
    /// Tells whether the failure is a violated temporal claim.
    pub fn is_temporal(&self) -> (temporal: bool)
        ensures
            temporal == is_temporal(self@),
    {
        match self {
            DecodeFailure::ExpiredSignature => true,
            DecodeFailure::ImmatureSignature => true,
            DecodeFailure::MissingRequiredClaim(name) => same_text(name.as_str(), "exp"),
            _ => false,
        }
    }
}

} // verus!
