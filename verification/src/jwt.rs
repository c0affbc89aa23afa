//! The calls into `jsonwebtoken`, `serde_json` and `base64`, each behind a
//! contract that Verus takes on trust. Nothing in this file is proved: every
//! contract restates what the source of the function it names shows.

use base64::Engine;
use vstd::prelude::*;

use crate::token::{
    optional_member, ChecksView, DecodeFailure, HeaderView, JsonMember, MemberView,
    SignatureAlgorithm, TokenHeader,
};

verus! {

/// `jsonwebtoken::errors::Error`, carried through as an opaque value.
#[verifier::external_type_specification]
#[verifier::external_body]
pub struct ExJwtError(jsonwebtoken::errors::Error);

/// `jsonwebtoken::DecodingKey`, carried through as an opaque value.
#[verifier::external_type_specification]
#[verifier::external_body]
pub struct ExDecodingKey(jsonwebtoken::DecodingKey);

/// `jsonwebtoken::Validation`, read only through [`checks_of`].
#[verifier::external_type_specification]
#[verifier::external_body]
pub struct ExValidation(jsonwebtoken::Validation);

/// `serde_json::Value`, read only through [`json_member`].
#[verifier::external_type_specification]
#[verifier::external_body]
pub struct ExJsonValue(serde_json::Value);

/// The bytes that the unpadded base64url engine of `base64` decodes a text
/// to, or `None` where it reports an error.
pub uninterp spec fn base64url_decoded(input: Seq<u8>) -> Option<Seq<u8>>;

/// The members of the JSON value that `serde_json::from_slice` parses the
/// bytes to, or `None` where it reports an error.
pub uninterp spec fn json_document_members(bytes: Seq<u8>) -> Option<Map<Seq<char>, MemberView>>;

/// The header that `jsonwebtoken::decode_header` reads from a token, or
/// `None` where it reports an error.
pub uninterp spec fn jwt_header(token: Seq<char>) -> Option<HeaderView>;

/// The members of the payload that `jsonwebtoken::decode` hands out for a
/// token where it succeeds: of the token's second segment, decoded and
/// parsed.
pub uninterp spec fn jwt_payload_members(token: Seq<char>) -> Map<Seq<char>, MemberView>;

/// Whether `jsonwebtoken::DecodingKey::from_rsa_components` makes a key of
/// this modulus and exponent: whether both decode as unpadded base64url.
pub uninterp spec fn rsa_components_accepted(modulus: Seq<char>, exponent: Seq<char>) -> bool;

/// What a JSON value holds as an object: each member under its name, as
/// text where it is a string, as an unsigned integer where it is a
/// non-negative integer that fits 64 bits, and as `Other` where it is
/// anything else. A value that is no object holds no member.
pub uninterp spec fn json_members(document: serde_json::Value) -> Map<Seq<char>, MemberView>;

/// What a `jsonwebtoken::Validation` asks of a token: its fields
/// `validate_signature`, `validate_aud`, `aud` (no audience where it is
/// `None`) and `required_spec_claims`.
pub uninterp spec fn checks_of(validation: jsonwebtoken::Validation) -> ChecksView;

/// `base64::Engine::decode` of the engine `URL_SAFE_NO_PAD`, the engine
/// with which `jsonwebtoken` decodes a token's segments.
#[verifier::external_body]
pub(crate) fn decode_base64url(input: &[u8]) -> (decoded: Option<Vec<u8>>)
    ensures
        match decoded {
            Some(bytes) => base64url_decoded(input@) == Some(bytes@),
            None => base64url_decoded(input@) is None,
        },
{
    base64::engine::general_purpose::URL_SAFE_NO_PAD.decode(input).ok()
}

/// `serde_json::from_slice` into a JSON value.
#[verifier::external_body]
pub(crate) fn parse_json(bytes: &[u8]) -> (document: Option<serde_json::Value>)
    ensures
        match document {
            Some(value) => json_document_members(bytes@) == Some(json_members(value)),
            None => json_document_members(bytes@) is None,
        },
{
    serde_json::from_slice::<serde_json::Value>(bytes).ok()
}

/// `jsonwebtoken::decode_header`: splits the token at its last two dots,
/// base64url-decodes the first segment and parses it as a JSON header. The
/// outcome depends on the token's text alone. Of the header's fields the
/// algorithm and the key identifier are handed on.
#[verifier::external_body]
pub(crate) fn decode_header(token: &str) -> (outcome: Result<
    TokenHeader,
    jsonwebtoken::errors::Error,
>)
    ensures
        match outcome {
            Ok(header) => jwt_header(token@) == Some(header@),
            Err(_) => jwt_header(token@) is None,
        },
{
    let header = jsonwebtoken::decode_header(token)?;
    Ok(TokenHeader { kid: header.kid, algorithm: match header.alg {
        jsonwebtoken::Algorithm::HS256 => SignatureAlgorithm::Hs256,
        jsonwebtoken::Algorithm::HS384 => SignatureAlgorithm::Hs384,
        jsonwebtoken::Algorithm::HS512 => SignatureAlgorithm::Hs512,
        jsonwebtoken::Algorithm::ES256 => SignatureAlgorithm::Es256,
        jsonwebtoken::Algorithm::ES384 => SignatureAlgorithm::Es384,
        jsonwebtoken::Algorithm::RS256 => SignatureAlgorithm::Rs256,
        jsonwebtoken::Algorithm::RS384 => SignatureAlgorithm::Rs384,
        jsonwebtoken::Algorithm::RS512 => SignatureAlgorithm::Rs512,
        jsonwebtoken::Algorithm::PS256 => SignatureAlgorithm::Ps256,
        jsonwebtoken::Algorithm::PS384 => SignatureAlgorithm::Ps384,
        jsonwebtoken::Algorithm::PS512 => SignatureAlgorithm::Ps512,
        jsonwebtoken::Algorithm::EdDSA => SignatureAlgorithm::EdDsa,
    } })
}

/// `jsonwebtoken::DecodingKey::from_rsa_components`: base64url-decodes the
/// modulus and the exponent and fails where either does not decode. Whether
/// it succeeds depends on the two texts alone.
pub assume_specification[ jsonwebtoken::DecodingKey::from_rsa_components ](
    modulus: &str,
    exponent: &str,
) -> (outcome: Result<jsonwebtoken::DecodingKey, jsonwebtoken::errors::Error>)
    ensures
        outcome is Ok <==> rsa_components_accepted(modulus@, exponent@),
;

/// `jsonwebtoken::Validation::new` for RS256: the signature is verified,
/// an audience claim is held against the audiences, of which there are
/// none yet, and `exp` must be present.
#[verifier::external_body]
pub(crate) fn rs256_validation() -> (validation: jsonwebtoken::Validation)
    ensures
        checks_of(validation) == (ChecksView {
            signature: true,
            audience: true,
            audiences: Set::<Seq<char>>::empty(),
            required_claims: Set::<Seq<char>>::empty().insert("exp"@),
        }),
{
    jsonwebtoken::Validation::new(jsonwebtoken::Algorithm::RS256)
}

/// `jsonwebtoken::Validation::set_audience` with one audience: it becomes
/// the only audience, and nothing else changes.
#[verifier::external_body]
pub(crate) fn expect_audience(validation: &mut jsonwebtoken::Validation, audience: &str)
    ensures
        checks_of(*final(validation)) == (ChecksView {
            audiences: Set::<Seq<char>>::empty().insert(audience@),
            ..checks_of(*old(validation))
        }),
{
    validation.set_audience(&[audience]);
}

/// `jsonwebtoken::Validation::set_required_spec_claims` with two claims:
/// they become the claims that must be present, and nothing else changes.
#[verifier::external_body]
pub(crate) fn require_claims(validation: &mut jsonwebtoken::Validation, first: &str, second: &str)
    ensures
        checks_of(*final(validation)) == (ChecksView {
            required_claims: Set::<Seq<char>>::empty().insert(first@).insert(second@),
            ..checks_of(*old(validation))
        }),
{
    validation.set_required_spec_claims(&[first, second]);
}

/// The field `validate_aud` of `jsonwebtoken::Validation`, set to `false`:
/// an audience claim is no longer looked at, and nothing else changes.
#[verifier::external_body]
pub(crate) fn skip_audience(validation: &mut jsonwebtoken::Validation)
    ensures
        checks_of(*final(validation)) == (ChecksView {
            audience: false,
            ..checks_of(*old(validation))
        }),
{
    validation.validate_aud = false;
}

/// `jsonwebtoken::Validation::insecure_disable_signature_validation`: the
/// signature is no longer verified, and nothing else changes.
#[verifier::external_body]
pub(crate) fn skip_signature(validation: &mut jsonwebtoken::Validation)
    ensures
        checks_of(*final(validation)) == (ChecksView {
            signature: false,
            ..checks_of(*old(validation))
        }),
{
    validation.insecure_disable_signature_validation();
}

/// `jsonwebtoken::decode` into a JSON value: makes the checks that the
/// validation asks for, against the clock where they are temporal, and
/// hands the payload out. Whether it succeeds depends on the time; the
/// payload it hands out is that of the token's second segment.
#[verifier::external_body]
pub(crate) fn decode_payload(
    token: &str,
    key: &jsonwebtoken::DecodingKey,
    validation: &jsonwebtoken::Validation,
) -> (outcome: Result<serde_json::Value, jsonwebtoken::errors::Error>)
    ensures
        outcome matches Ok(payload) ==> json_members(payload) == jwt_payload_members(token@),
{
    let data = jsonwebtoken::decode::<serde_json::Value>(token, key, validation)?;
    Ok(data.claims)
}

/// `jsonwebtoken::errors::Error::kind`, each kind that validation tells
/// apart under a name of this library. Nothing is claimed of it.
#[verifier::external_body]
pub(crate) fn failure_of(error: &jsonwebtoken::errors::Error) -> DecodeFailure {
    match error.kind() {
        jsonwebtoken::errors::ErrorKind::InvalidAlgorithm => DecodeFailure::InvalidAlgorithm,
        jsonwebtoken::errors::ErrorKind::InvalidAudience => DecodeFailure::InvalidAudience,
        jsonwebtoken::errors::ErrorKind::ExpiredSignature => DecodeFailure::ExpiredSignature,
        jsonwebtoken::errors::ErrorKind::ImmatureSignature => DecodeFailure::ImmatureSignature,
        jsonwebtoken::errors::ErrorKind::MissingRequiredClaim(name) => {
            DecodeFailure::MissingRequiredClaim(name.clone())
        },
        jsonwebtoken::errors::ErrorKind::InvalidSignature => DecodeFailure::InvalidSignature,
        _ => DecodeFailure::Other,
    }
}

/// `serde_json::Value::get` by name, the member found told apart with
/// `as_str` and `as_u64`: the named member of a JSON object, `None` where
/// the value is no object or has no such member.
#[verifier::external_body]
pub(crate) fn json_member(document: &serde_json::Value, name: &str) -> (member: Option<JsonMember>)
    ensures
        optional_member(member) == if json_members(*document).contains_key(name@) {
            Some(json_members(*document)[name@])
        } else {
            None
        },
{
    let value = document.get(name)?;
    Some(if let Some(text) = value.as_str() {
        JsonMember::Text(text.to_owned())
    } else if let Some(number) = value.as_u64() {
        JsonMember::Unsigned(number)
    } else {
        JsonMember::Other
    })
}

} // verus!
