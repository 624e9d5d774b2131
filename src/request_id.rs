//! The request identifier and the rule that derives it from the
//! `X-Request-Id` header.

use crate::normalize::{normalize, normalized};
use crate::uuid_form::{
    digit_position, hex_digit_value, is_uuid_text, new_v7_text, parse_uuid,
    text_version, uuid_digits, version_number,
};
use vstd::prelude::*;

verus! {

/// The name of the header that carries a client's request identifier.
pub const HEADER_X_REQUEST_ID: &'static str = "X-Request-Id";

/// The status code of every rejection.
pub const BAD_REQUEST: u16 = 400;

/// A request identifier: a UUID text whose version is 7.
pub struct ExtractRequestId(pub String);

/// Why a header value was refused.
#[derive(Debug, Clone, Copy, PartialEq, Eq, Structural)]
pub enum RejectionReason {
    /// The normalized value is not the text of any UUID.
    NotAUuid,
    /// The value is a UUID of the given version, which is not 7.
    WrongVersion(usize),
}

/// A text that may serve as a request identifier.
pub open spec fn is_request_id(s: Seq<char>) -> bool {
    is_uuid_text(s) && text_version(s) == 7
}

/// `r` is what the normalized candidate `c` resolves to: `c` itself when it
/// is a version 7 UUID, else the matching rejection.
pub open spec fn resolution(c: Seq<char>, r: Result<ExtractRequestId, RejectionReason>) -> bool {
    &&& is_request_id(c) ==> (r is Ok && r->Ok_0.0@ == c)
    &&& !is_uuid_text(c) ==> r == Err::<ExtractRequestId, RejectionReason>(
        RejectionReason::NotAUuid,
    )
    &&& (is_uuid_text(c) && text_version(c) != 7) ==> r == Err::<ExtractRequestId, RejectionReason>(
        RejectionReason::WrongVersion(text_version(c) as usize),
    )
}

pub open spec fn message_text(reason: RejectionReason) -> Seq<char> {
    "Invalid "@ + HEADER_X_REQUEST_ID@ + match reason {
        RejectionReason::NotAUuid => " : Not a valid UUID"@,
        RejectionReason::WrongVersion(_) => " : Not an UUID v7"@,
    }
}

impl RejectionReason {
    /// The status code that the client receives.
    pub fn status_code(&self) -> (r: u16)
        ensures
            r == BAD_REQUEST,
    {
        BAD_REQUEST
    }

    /// The message that the client receives, naming the header.
    pub fn message(&self) -> (r: String)
        ensures
            r@ == message_text(*self),
    {
        let mut m = String::from_str("Invalid ");
        m.append(HEADER_X_REQUEST_ID);
        match self {
            RejectionReason::NotAUuid => m.append(" : Not a valid UUID"),
            RejectionReason::WrongVersion(_) => m.append(" : Not an UUID v7"),
        }
        m
    }
}

impl ExtractRequestId {
    /// Validates an already normalized candidate: it is accepted as it stands
    /// when it is a version 7 UUID text.
    pub fn from_candidate(candidate: &str) -> (r: Result<ExtractRequestId, RejectionReason>)
        ensures
            resolution(candidate@, r),
            r is Ok ==> is_request_id(r->Ok_0.0@),
    {
        match parse_uuid(candidate) {
            Err(_) => Err(RejectionReason::NotAUuid),
            Ok(value) => {
                let version = version_number(value);
                assert(version == hex_digit_value(uuid_digits(candidate@)[12]));
                if version != 7 {
                    Err(RejectionReason::WrongVersion(version))
                } else {
                    Ok(ExtractRequestId(candidate.to_owned()))
                }
            }
        }
    }

    /// Resolves the request identifier from the header value, if any. An
    /// absent header gives a fresh version 7 identifier; a present one is
    /// trimmed, lower-cased and then accepted or refused as a candidate.
    pub fn from_header(raw: Option<&str>) -> (r: Result<ExtractRequestId, RejectionReason>)
        ensures
            raw is None ==> r is Ok,
            raw is Some ==> resolution(normalized(raw->Some_0@), r),
            r is Ok ==> is_request_id(r->Ok_0.0@),
    {
        match raw {
            None => {
                let fresh = new_v7_text();
                assert(uuid_digits(fresh@)[12] == fresh@[digit_position(12)]);
                Ok(ExtractRequestId(fresh))
            },
            Some(s) => {
                let candidate = normalize(s);
                Self::from_candidate(candidate.as_str())
            },
        }
    }
}

} // verus!
