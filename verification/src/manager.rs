//! The forwarding-address manager: built from a validated session
//! client, it fixes the cookie header once, builds the request for each
//! operation, and interprets each response. The HTTP round trips are the
//! caller's affair; every operation is handed the status and raw body
//! that came back and decides everything from there.

use vstd::prelude::*;
use vstd::string::*;

use crate::cookie::join_cookies;
use crate::error::{is_claim_rejected, is_transport, Error};
use crate::json::{
    decode_generate, decode_list, decode_reserve, generate_address_of, list_result_of,
    reserve_record_of,
};
use crate::payload::{claim_payload, claim_payload_model};
use crate::session::{check_http_status, lookup, service_key, ICloudClient, ServiceEntryModel};
use crate::text::str_eq;

verus! {

/// The full record of a claimed forwarding address.
#[derive(Debug, PartialEq, Eq)]
pub struct HMEReserveResult {
    pub origin: String,
    pub anonymous_id: String,
    pub domain: String,
    pub hme: String,
    pub label: String,
    pub note: String,
    pub create_timestamp: u64,
    pub is_active: bool,
    pub recipient_mail_id: String,
}

/// One listed forwarding address, with the address it forwards to.
#[derive(Debug, PartialEq, Eq)]
pub struct HMEListEmails {
    pub origin: String,
    pub anonymous_id: String,
    pub domain: String,
    pub forward_to_email: String,
    pub hme: String,
    pub label: String,
    pub note: String,
    pub create_timestamp: u64,
    pub is_active: bool,
    pub recipient_mail_id: String,
}

/// The full list result: the addresses mail can be forwarded to, every
/// forwarding address, and the currently selected forward-to address.
#[derive(Debug, PartialEq, Eq)]
pub struct HMEListResult {
    pub forward_to_emails: Vec<String>,
    pub hme_emails: Vec<HMEListEmails>,
    pub selected_forward_to: String,
}

/// The model of a claimed-address record: its fields as plain values.
pub struct ReserveModel {
    pub origin: Seq<char>,
    pub anonymous_id: Seq<char>,
    pub domain: Seq<char>,
    pub hme: Seq<char>,
    pub label: Seq<char>,
    pub note: Seq<char>,
    pub create_timestamp: u64,
    pub is_active: bool,
    pub recipient_mail_id: Seq<char>,
}

impl View for HMEReserveResult {
    type V = ReserveModel;

    open spec fn view(&self) -> ReserveModel {
        ReserveModel {
            origin: self.origin@,
            anonymous_id: self.anonymous_id@,
            domain: self.domain@,
            hme: self.hme@,
            label: self.label@,
            note: self.note@,
            create_timestamp: self.create_timestamp,
            is_active: self.is_active,
            recipient_mail_id: self.recipient_mail_id@,
        }
    }
}

/// The model of one listed forwarding address.
pub struct ListEmailModel {
    pub origin: Seq<char>,
    pub anonymous_id: Seq<char>,
    pub domain: Seq<char>,
    pub forward_to_email: Seq<char>,
    pub hme: Seq<char>,
    pub label: Seq<char>,
    pub note: Seq<char>,
    pub create_timestamp: u64,
    pub is_active: bool,
    pub recipient_mail_id: Seq<char>,
}

impl View for HMEListEmails {
    type V = ListEmailModel;

    open spec fn view(&self) -> ListEmailModel {
        ListEmailModel {
            origin: self.origin@,
            anonymous_id: self.anonymous_id@,
            domain: self.domain@,
            forward_to_email: self.forward_to_email@,
            hme: self.hme@,
            label: self.label@,
            note: self.note@,
            create_timestamp: self.create_timestamp,
            is_active: self.is_active,
            recipient_mail_id: self.recipient_mail_id@,
        }
    }
}

/// The model of a full list result.
pub struct ListResultModel {
    pub forward_to_emails: Seq<Seq<char>>,
    pub hme_emails: Seq<ListEmailModel>,
    pub selected_forward_to: Seq<char>,
}

impl View for HMEListResult {
    type V = ListResultModel;

    open spec fn view(&self) -> ListResultModel {
        ListResultModel {
            forward_to_emails: self.forward_to_emails@.map_values(|s: String| s@),
            hme_emails: self.hme_emails@.map_values(|e: HMEListEmails| e@),
            selected_forward_to: self.selected_forward_to@,
        }
    }
}

/// Everything the caller must send to complete a claim: the URL, the
/// encoded body, and the address being claimed.
#[derive(Debug, PartialEq, Eq)]
pub struct ClaimRequest {
    pub url: String,
    pub payload: String,
    pub hme: String,
}

/// The base URL of the forwarding-email service, if the directory names
/// one.
pub open spec fn base_url_model(d: Seq<ServiceEntryModel>) -> Option<Seq<char>> {
    match lookup(d, service_key()) {
        Some(s) => s.url,
        None => None,
    }
}

/// The manager: the session it was built from and the cookie header
/// fixed at construction time.
#[derive(Debug)]
pub struct HideMyEmailManager {
    icloud: ICloudClient,
    cookie: String,
}

impl HideMyEmailManager {
    /// The service directory of the underlying session.
    pub closed spec fn directory_model(&self) -> Seq<ServiceEntryModel> {
        self.icloud.services_model()
    }

    /// The cookie header every operation carries.
    pub closed spec fn cookie_model(&self) -> Seq<char> {
        self.cookie@
    }

    /// Builds a manager from a session client, fixing the serialized
    /// cookie set of that moment as the cookie header of every later
    /// call.
    pub fn from(icloud: ICloudClient) -> (r: HideMyEmailManager)
        ensures
            r.directory_model() == icloud.services_model(),
            r.cookie_model() == join_cookies(icloud.cookies_model()),
    {
        let cookie = icloud.cookie_header();
        HideMyEmailManager { icloud, cookie }
    }

    /// The cookie header, for the caller that performs the round trips.
    pub fn cookie_header(&self) -> (r: &String)
        ensures
            r@ == self.cookie_model(),
    {
        &self.cookie
    }

    /// The base URL of the forwarding-email service, if discovered.
    fn base_url(&self) -> (r: Option<String>)
        ensures
            match base_url_model(self.directory_model()) {
                Some(u) => r matches Some(s) && s@ == u,
                None => r is None,
            },
    {
        match self.icloud.forwarding_service() {
            Some(s) => match &s.url {
                Some(u) => Some(u.clone()),
                None => None,
            },
            None => None,
        }
    }

    /// The URL a generate call posts to, or the missing-base-URL error.
    pub fn generate_url(&self) -> (r: Result<String, Error>)
        ensures
            match base_url_model(self.directory_model()) {
                Some(b) => r matches Ok(u) && u@ == b + "/v1/hme/generate"@,
                None => r == Err::<String, Error>(Error::MissingBaseUrl),
            },
    {
        match self.base_url() {
            Some(b) => {
                let mut u = b;
                u.append("/v1/hme/generate");
                Ok(u)
            },
            None => Err(Error::MissingBaseUrl),
        }
    }

    /// The URL a list call gets, or the missing-base-URL error.
    pub fn list_url(&self) -> (r: Result<String, Error>)
        ensures
            match base_url_model(self.directory_model()) {
                Some(b) => r matches Ok(u) && u@ == b + "/v2/hme/list"@,
                None => r == Err::<String, Error>(Error::MissingBaseUrl),
            },
    {
        match self.base_url() {
            Some(b) => {
                let mut u = b;
                u.append("/v2/hme/list");
                Ok(u)
            },
            None => Err(Error::MissingBaseUrl),
        }
    }

    /// Everything a claim call must send for this address, label and
    /// note, or the missing-base-URL error.
    pub fn claim_request(&self, hme: &str, label: &str, note: &str) -> (r: Result<
        ClaimRequest,
        Error,
    >)
        ensures
            match base_url_model(self.directory_model()) {
                Some(b) => r matches Ok(cr) && cr.url@ == b + "/v1/hme/reserve"@ && cr.payload@
                    == claim_payload_model(hme@, label@, note@) && cr.hme@ == hme@,
                None => r == Err::<ClaimRequest, Error>(Error::MissingBaseUrl),
            },
    {
        match self.base_url() {
            Some(b) => {
                let mut u = b;
                u.append("/v1/hme/reserve");
                Ok(
                    ClaimRequest {
                        url: u,
                        payload: claim_payload(hme, label, note),
                        hme: String::from_str(hme),
                    },
                )
            },
            None => Err(Error::MissingBaseUrl),
        }
    }

    /// Interprets a generate response: after the status check, the body
    /// must denote a generate envelope whose `result.hme` is the fresh
    /// address (`generate_address_of`), and exactly that address is
    /// returned; a body that denotes none is a decode error.
    pub fn generate(&self, status: u16, body: &str) -> (r: Result<String, Error>)
        ensures
            base_url_model(self.directory_model()) is None ==> r == Err::<String, Error>(
                Error::MissingBaseUrl,
            ),
            base_url_model(self.directory_model()) is Some && 400 <= status < 600 ==> (r matches
                Err(e) && is_transport(e, status, body@)),
            base_url_model(self.directory_model()) is Some && !(400 <= status < 600) ==> (match
                generate_address_of(body@) {
                Some(a) => r matches Ok(s) && s@ == a,
                None => r matches Err(e) && e matches Error::Decode { .. },
            }),
            r is Ok ==> base_url_model(self.directory_model()) is Some && !(400 <= status < 600),
    {
        if self.base_url().is_none() {
            return Err(Error::MissingBaseUrl);
        }
        match check_http_status(status, body) {
            Err(e) => {
                return Err(e);
            },
            Ok(_) => {},
        }
        decode_generate(body)
    }

    /// Interprets a claim response: after the status check, the body must
    /// denote a reserve envelope whose `result.hme` is the full record
    /// (`reserve_record_of`); the claim counts exactly when that record
    /// is active and carries the requested address, and anything else is
    /// a rejected claim naming the request and both actual values.
    pub fn claim(&self, email: &str, status: u16, body: &str) -> (r: Result<
        HMEReserveResult,
        Error,
    >)
        ensures
            base_url_model(self.directory_model()) is None ==> r == Err::<HMEReserveResult, Error>(
                Error::MissingBaseUrl,
            ),
            base_url_model(self.directory_model()) is Some && 400 <= status < 600 ==> (r matches
                Err(e) && is_transport(e, status, body@)),
            base_url_model(self.directory_model()) is Some && !(400 <= status < 600) ==> (match
                reserve_record_of(body@) {
                Some(g) => if g.is_active && g.hme == email@ {
                    r matches Ok(out) && out@ == g
                } else {
                    r matches Err(e) && is_claim_rejected(e, email@, g.is_active, g.hme)
                },
                None => r matches Err(e) && e matches Error::Decode { .. },
            }),
            r matches Ok(g) ==> base_url_model(self.directory_model()) is Some && !(400 <= status
                < 600) && g.is_active && g.hme@ == email@,
    {
        if self.base_url().is_none() {
            return Err(Error::MissingBaseUrl);
        }
        match check_http_status(status, body) {
            Err(e) => {
                return Err(e);
            },
            Ok(_) => {},
        }
        let record = match decode_reserve(body) {
            Ok(g) => g,
            Err(e) => {
                return Err(e);
            },
        };
        check_claim(record, email)
    }

    /// Interprets a list response: after the status check, the body must
    /// denote a list envelope (`list_result_of`), and exactly that list
    /// is returned; a body that denotes none is a decode error.
    pub fn list(&self, status: u16, body: &str) -> (r: Result<HMEListResult, Error>)
        ensures
            base_url_model(self.directory_model()) is None ==> r == Err::<HMEListResult, Error>(
                Error::MissingBaseUrl,
            ),
            base_url_model(self.directory_model()) is Some && 400 <= status < 600 ==> (r matches
                Err(e) && is_transport(e, status, body@)),
            base_url_model(self.directory_model()) is Some && !(400 <= status < 600) ==> (match
                list_result_of(body@) {
                Some(m) => r matches Ok(out) && out@ == m,
                None => r matches Err(e) && e matches Error::Decode { .. },
            }),
            r is Ok ==> base_url_model(self.directory_model()) is Some && !(400 <= status < 600),
    {
        if self.base_url().is_none() {
            return Err(Error::MissingBaseUrl);
        }
        match check_http_status(status, body) {
            Err(e) => {
                return Err(e);
            },
            Ok(_) => {},
        }
        decode_list(body)
    }

    /// The composite operation: interprets the generate response, forms
    /// the claim request that must follow, and interprets the claim
    /// response against the freshly generated address; the address is
    /// returned once both steps went through. The two steps are not
    /// atomic: when the claim fails after a successful generate, the
    /// generated address is abandoned and only the claim's error is
    /// reported.
    pub fn generate_and_claim(
        &self,
        label: &str,
        note: &str,
        gen_status: u16,
        gen_body: &str,
        claim_status: u16,
        claim_body: &str,
    ) -> (r: Result<String, Error>)
        ensures
            base_url_model(self.directory_model()) is None ==> r == Err::<String, Error>(
                Error::MissingBaseUrl,
            ),
            base_url_model(self.directory_model()) is Some && 400 <= gen_status < 600 ==> (r matches
                Err(e) && is_transport(e, gen_status, gen_body@)),
            base_url_model(self.directory_model()) is Some && !(400 <= gen_status < 600) ==> (match
                generate_address_of(gen_body@) {
                None => r matches Err(e) && e matches Error::Decode { .. },
                Some(a) => if 400 <= claim_status < 600 {
                    r matches Err(e) && is_transport(e, claim_status, claim_body@)
                } else {
                    match reserve_record_of(claim_body@) {
                        None => r matches Err(e) && e matches Error::Decode { .. },
                        Some(g) => if g.is_active && g.hme == a {
                            r matches Ok(s) && s@ == a
                        } else {
                            r matches Err(e) && is_claim_rejected(e, a, g.is_active, g.hme)
                        },
                    }
                },
            }),
            r is Ok ==> base_url_model(self.directory_model()) is Some && !(400 <= gen_status < 600)
                && !(400 <= claim_status < 600),
    {
        let hme = match self.generate(gen_status, gen_body) {
            Ok(h) => h,
            Err(e) => {
                return Err(e);
            },
        };
        let request = match self.claim_request(hme.as_str(), label, note) {
            Ok(rq) => rq,
            Err(e) => {
                return Err(e);
            },
        };
        match self.claim(request.hme.as_str(), claim_status, claim_body) {
            Ok(_) => Ok(hme),
            Err(e) => Err(e),
        }
    }
}

/// Decides a claim: the record counts only if it is active and carries
/// the requested address; otherwise the claim is rejected with an error
/// naming the request and both actual values.
pub fn check_claim(record: HMEReserveResult, email: &str) -> (r: Result<HMEReserveResult, Error>)
    ensures
        (record.is_active && record.hme@ == email@) <==> (r is Ok),
        r matches Ok(g) ==> g == record,
        r matches Err(e) ==> crate::error::is_claim_rejected(
            e,
            email@,
            record.is_active,
            record.hme@,
        ),
{
    let matches_addr = str_eq(record.hme.as_str(), email);
    if record.is_active && matches_addr {
        Ok(record)
    } else {
        Err(
            Error::ClaimRejected {
                email: String::from_str(email),
                active: record.is_active,
                hme: record.hme,
            },
        )
    }
}

} // verus!
