//! A verified client core for a cloud email-forwarding service.
//!
//! The crate models the session lifecycle of the service: assembling a
//! cookie header, validating the session against the service directory,
//! and driving the generate/claim protocol for disposable forwarding
//! addresses. All decision logic is verified; the HTTP transport and the
//! JSON decoder are external collaborators reached through a small set of
//! trusted declarations.

mod cookie;
mod error;
mod json;
mod manager;
mod payload;
mod session;
mod text;

pub use cookie::{header_value_ok, merge_cookies, serialize_cookies, Cookie, ParseCookieError};
pub use error::Error;
pub use manager::{
    check_claim, ClaimRequest, HMEListEmails, HMEListResult, HMEReserveResult, HideMyEmailManager,
};
pub use payload::claim_payload;
pub use session::{check_http_status, ICloudClient, Service, ServiceEntry};
