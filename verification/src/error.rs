//! The error taxonomy of the library, with a verified rendering of each
//! condition as a human-readable message.

use vstd::prelude::*;
use vstd::string::*;

use crate::text::{bool_seq, bool_to_str, contains_seq, dec_of, u16_to_string};

verus! {

/// Everything a session or manager operation can fail with.
#[derive(Debug, PartialEq, Eq)]
pub enum Error {
    /// The transport answered with a 4xx or 5xx status; the status and the
    /// raw response body are carried verbatim.
    Transport { status: u16, body: String },
    /// The response body did not have the expected JSON shape.
    Decode { detail: String },
    /// The service directory holds no forwarding-email service.
    MissingService,
    /// The forwarding-email service carries no status field.
    MissingStatus,
    /// The forwarding-email service is present but not active.
    Inactive,
    /// The forwarding-email service carries no base URL.
    MissingBaseUrl,
    /// A claimed address came back inactive, or under another address
    /// than the one requested; the request and both actual values are
    /// carried.
    ClaimRejected { email: String, active: bool, hme: String },
}

/// `e` is the transport failure for this status and body.
pub open spec fn is_transport(e: Error, status: u16, body: Seq<char>) -> bool {
    match e {
        Error::Transport { status: s, body: b } => s == status && b@ == body,
        _ => false,
    }
}

/// `e` is the rejected-claim failure naming this request and the actual
/// active flag and address that came back.
pub open spec fn is_claim_rejected(e: Error, email: Seq<char>, active: bool, hme: Seq<char>) -> bool {
    match e {
        Error::ClaimRejected { email: em, active: a, hme: h } => em@ == email && a == active && h@
            == hme,
        _ => false,
    }
}

/// The message of a transport failure.
pub open spec fn transport_msg(status: nat, body: Seq<char>) -> Seq<char> {
    "Failed to send request | Status: "@ + dec_of(status) + " | Response: "@ + body
}

/// The message of a rejected claim.
pub open spec fn claim_rejected_msg(email: Seq<char>, active: bool, hme: Seq<char>) -> Seq<char> {
    "Hide my email for "@ + email + " is inactive/invalid, Active: "@ + bool_seq(active) + ", HME: "@
        + hme
}

/// The message of each error condition.
pub open spec fn error_msg(e: Error) -> Seq<char> {
    match e {
        Error::Transport { status, body } => transport_msg(status as nat, body@),
        Error::Decode { detail } => "Failed to decode response | "@ + detail@,
        Error::MissingService => "Missing Hide my email service"@,
        Error::MissingStatus => "Hide my email missing status"@,
        Error::Inactive => "Hide my email is inactive/disabled"@,
        Error::MissingBaseUrl => "Missing Base URL"@,
        Error::ClaimRejected { email, active, hme } => claim_rejected_msg(email@, active, hme@),
    }
}

impl Error {
    /// Renders the error as its message.
    pub fn message(&self) -> (r: String)
        ensures
            r@ == error_msg(*self),
    {
        match self {
            Error::Transport { status, body } => {
                let mut s = String::from_str("Failed to send request | Status: ");
                let d = u16_to_string(*status);
                s.append(d.as_str());
                s.append(" | Response: ");
                s.append(body.as_str());
                proof {
                    assert(s@ =~= error_msg(*self));
                }
                s
            },
            Error::Decode { detail } => {
                let mut s = String::from_str("Failed to decode response | ");
                s.append(detail.as_str());
                s
            },
            Error::MissingService => String::from_str("Missing Hide my email service"),
            Error::MissingStatus => String::from_str("Hide my email missing status"),
            Error::Inactive => String::from_str("Hide my email is inactive/disabled"),
            Error::MissingBaseUrl => String::from_str("Missing Base URL"),
            Error::ClaimRejected { email, active, hme } => {
                let mut s = String::from_str("Hide my email for ");
                s.append(email.as_str());
                s.append(" is inactive/invalid, Active: ");
                s.append(bool_to_str(*active));
                s.append(", HME: ");
                s.append(hme.as_str());
                proof {
                    assert(s@ =~= error_msg(*self));
                }
                s
            },
        }
    }
}

/// The law of transport failures: whatever operation produced it, the
/// message of a transport error names the numeric status and carries the
/// raw response body.
pub proof fn lemma_transport_message_names_status_and_body(status: u16, body: Seq<char>)
    ensures
        contains_seq(transport_msg(status as nat, body), dec_of(status as nat)),
        contains_seq(transport_msg(status as nat, body), body),
{
    let l1 = "Failed to send request | Status: "@;
    let l2 = " | Response: "@;
    let d = dec_of(status as nat);
    let msg = transport_msg(status as nat, body);
    assert(msg.subrange(l1.len() as int, (l1.len() + d.len()) as int) =~= d);
    assert(contains_seq(msg, d));
    let i2 = (l1.len() + d.len() + l2.len()) as int;
    assert(msg.subrange(i2, i2 + body.len() as int) =~= body);
    assert(contains_seq(msg, body));
}

} // verus!
