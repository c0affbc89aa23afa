//! The failures a token validation can end in.

use vstd::prelude::*;
use vstd::string::StringExecFns;

use crate::text::same_text;
use crate::token::{DecodeFailure, ReasonView};

verus! {

/// The closed set of ways in which a token is turned down.
#[derive(Debug, Clone, Copy, PartialEq, Eq, Structural)]
pub enum ErrorKind {
    /// The first segment is not the encoding of a JSON object with an
    /// algorithm field.
    MalformedToken,
    /// The header could not be read, or names no key.
    HeaderDecode,
    /// The key set holds no key with the identifier the header names.
    KeyNotFound,
    /// The modulus or exponent of the resolved key is not usable.
    KeyConstruction,
    /// The header declares an algorithm other than RS256.
    AlgorithmMismatch,
    /// The audience claim does not name the expected audience, or is
    /// missing.
    AudienceMismatch,
    /// A temporal claim is violated, or the expiry is missing.
    ExpiredOrNotYetValid,
    /// The signature or the payload was rejected, or a claim field is
    /// missing or of the wrong shape.
    ClaimsDecode,
    /// The token's repository owner is not the expected organization.
    OrganizationMismatch,
    /// The token's repository is not the expected repository.
    RepositoryMismatch,
}

/// A failed validation: its kind, for callers to branch on, and a message
/// for their logs.
#[derive(Debug)]
pub struct ValidationError {
    pub kind: ErrorKind,
    pub message: String,
}

/// The mathematical value of a [`ValidationError`].
pub struct ErrorView {
    pub kind: ErrorKind,
    pub message: Seq<char>,
}

impl View for ValidationError {
    type V = ErrorView;

    open spec fn view(&self) -> ErrorView {
        ErrorView { kind: self.kind, message: self.message@ }
    }
}

/// The kind under which a failed signature and claim verification is
/// reported. A missing claim is reported as the check that asks for it: a
/// missing expiry as a temporal failure, a missing audience as an audience
/// mismatch.
pub open spec fn failure_kind(failure: ReasonView) -> ErrorKind {
    match failure {
        ReasonView::InvalidAlgorithm => ErrorKind::AlgorithmMismatch,
        ReasonView::InvalidAudience => ErrorKind::AudienceMismatch,
        ReasonView::ExpiredSignature => ErrorKind::ExpiredOrNotYetValid,
        ReasonView::ImmatureSignature => ErrorKind::ExpiredOrNotYetValid,
        ReasonView::MissingRequiredClaim(name) => if name == "exp"@ {
            ErrorKind::ExpiredOrNotYetValid
        } else if name == "aud"@ {
            ErrorKind::AudienceMismatch
        } else {
            ErrorKind::ClaimsDecode
        },
        ReasonView::InvalidSignature => ErrorKind::ClaimsDecode,
        ReasonView::Other => ErrorKind::ClaimsDecode,
    }
}

/// The error a failed signature and claim verification is reported as.
pub open spec fn decode_failure(failure: ReasonView, detail: Seq<char>) -> ErrorView {
    ErrorView { kind: failure_kind(failure), message: "Failed to decode token: "@ + detail }
}

/// The error for a header segment that could not be decoded.
pub open spec fn header_failure(detail: Seq<char>) -> ErrorView {
    ErrorView {
        kind: ErrorKind::HeaderDecode,
        message: "Failed to decode header: "@ + detail
            + ". Make sure you're using a valid JWT, not a PAT."@,
    }
}

/// The error for a key whose modulus or exponent could not be used.
pub open spec fn key_failure(detail: Seq<char>) -> ErrorView {
    ErrorView {
        kind: ErrorKind::KeyConstruction,
        message: "Failed to create decoding key: "@ + detail,
    }
}

impl ValidationError {
    /// An error of the given kind with the given message.
    pub fn new(kind: ErrorKind, message: &str) -> (error: ValidationError)
        ensures
            error@ == (ErrorView { kind, message: message@ }),
    {
        ValidationError { kind, message: String::from_str(message) }
    }

    /// The message, for logs.
    pub fn to_string(&self) -> (message: String)
        ensures
            message@ == self.message@,
    {
        self.message.clone()
    }

    /// Reports a failed signature and claim verification under the kind
    /// that callers branch on, keeping the detail for their logs.
    pub fn from_decode_failure(failure: &DecodeFailure, detail: &str) -> (error: ValidationError)
        ensures
            error@ == decode_failure(failure@, detail@),
    {
        let kind = match failure {
            DecodeFailure::InvalidAlgorithm => ErrorKind::AlgorithmMismatch,
            DecodeFailure::InvalidAudience => ErrorKind::AudienceMismatch,
            DecodeFailure::ExpiredSignature => ErrorKind::ExpiredOrNotYetValid,
            DecodeFailure::ImmatureSignature => ErrorKind::ExpiredOrNotYetValid,
            DecodeFailure::MissingRequiredClaim(name) => {
                if same_text(name.as_str(), "exp") {
                    ErrorKind::ExpiredOrNotYetValid
                } else if same_text(name.as_str(), "aud") {
                    ErrorKind::AudienceMismatch
                } else {
                    ErrorKind::ClaimsDecode
                }
            },
            DecodeFailure::InvalidSignature => ErrorKind::ClaimsDecode,
            DecodeFailure::Other => ErrorKind::ClaimsDecode,
        };
        let message = String::from_str("Failed to decode token: ").concat(detail);
        ValidationError { kind, message }
    }

    /// Reports a header segment that could not be decoded.
    pub fn from_header_failure(detail: &str) -> (error: ValidationError)
        ensures
            error@ == header_failure(detail@),
    {
        let message = String::from_str("Failed to decode header: ").concat(detail).concat(
            ". Make sure you're using a valid JWT, not a PAT.",
        );
        ValidationError { kind: ErrorKind::HeaderDecode, message }
    }

    /// Reports a key whose modulus or exponent could not be used.
    pub fn from_key_failure(detail: &str) -> (error: ValidationError)
        ensures
            error@ == key_failure(detail@),
    {
        let message = String::from_str("Failed to create decoding key: ").concat(detail);
        ValidationError { kind: ErrorKind::KeyConstruction, message }
    }
}

} // verus!
