//! The format pre-check: whether a text has the structure of a JWT at its
//! start.

use vstd::prelude::*;
use vstd::slice::slice_subrange;
use vstd::string::StringSliceAdditionalSpecFns;
use vstd::utf8::encode_utf8;

use crate::jwt::{
    base64url_decoded, decode_base64url, json_document_members, json_member, parse_json,
};

verus! {

/// The byte that separates the segments of a compact token: a dot.
pub open spec fn separator() -> u8 {
    0x2e
}

/// Whether the first segment of `bytes` ends before position `at`: no
/// separator comes earlier, and `at` holds one or is the end.
pub open spec fn ends_first_segment(bytes: Seq<u8>, at: int) -> bool {
    &&& 0 <= at <= bytes.len()
    &&& forall|before: int| 0 <= before < at ==> bytes[before] != separator()
    &&& at < bytes.len() ==> bytes[at] == separator()
}

/// The first segment of a compact token: its bytes before the first dot,
/// or all of them where it has no dot.
pub open spec fn first_segment(bytes: Seq<u8>) -> Seq<u8> {
    bytes.subrange(0, choose|at: int| ends_first_segment(bytes, at))
}

/// Whether a token has the structure of a JWT at its start: its first
/// segment is the unpadded base64url encoding of a JSON object that has an
/// algorithm field.
pub open spec fn has_jwt_structure(token: Seq<char>) -> bool {
    match base64url_decoded(first_segment(encode_utf8(token))) {
        None => false,
        Some(decoded) => match json_document_members(decoded) {
            None => false,
            Some(members) => members.contains_key("alg"@),
        },
    }
}

/// The position at which the first segment ends is the one that
/// `first_segment` cuts at.
pub proof fn lemma_first_segment(bytes: Seq<u8>, at: int)
    requires
        ends_first_segment(bytes, at),
    ensures
        first_segment(bytes) == bytes.subrange(0, at),
{
    let chosen = choose|at: int| ends_first_segment(bytes, at);
    if chosen < at {
        assert(bytes[chosen] != separator());
    } else if at < chosen {
        assert(bytes[at] != separator());
    }
}

/// Tells whether a token has the structure of a JWT at its start.
pub fn is_jwt_shaped(token: &str) -> (shaped: bool)
    ensures
        shaped == has_jwt_structure(token@),
{
    let bytes = token.as_bytes();
    let mut at: usize = 0;
    while at < bytes.len() && bytes[at] != 0x2e
        invariant
            at <= bytes@.len(),
            forall|before: int| 0 <= before < at ==> bytes@[before] != separator(),
        decreases bytes@.len() - at,
    {
        at += 1;
    }
    proof {
        lemma_first_segment(bytes@, at as int);
    }
    let segment = slice_subrange(bytes, 0, at);
    match decode_base64url(segment) {
        None => false,
        Some(decoded) => match parse_json(decoded.as_slice()) {
            None => false,
            Some(document) => json_member(&document, "alg").is_some(),
        },
    }
}

} // verus!
