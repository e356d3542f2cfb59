//! The session client: it owns the cookie set and the directory of
//! discovered services, and interprets the response of the validation
//! handshake. The handshake's HTTP round trip itself is the caller's
//! affair; the client is handed the status, the raw body and the
//! response cookies, and decides everything from there.

use vstd::prelude::*;
use vstd::string::*;

use crate::cookie::{
    jar, join_cookies, merge_cookies, merge_model, valid_header_value, Cookie, CookieModel,
};
use crate::error::{is_transport, Error};
use crate::json::{decode_directory, directory_of};
use crate::text::str_eq;

verus! {

/// One discovered service: its base URL and its status, either of which
/// the server may omit.
#[derive(Debug, PartialEq, Eq)]
pub struct Service {
    pub url: Option<String>,
    pub status: Option<String>,
}

/// A service directory entry: a service under its name.
#[derive(Debug, PartialEq, Eq)]
pub struct ServiceEntry {
    pub name: String,
    pub service: Service,
}

/// The model of a service: its fields as character sequences.
pub struct ServiceModel {
    pub url: Option<Seq<char>>,
    pub status: Option<Seq<char>>,
}

/// The model of a directory entry.
pub struct ServiceEntryModel {
    pub name: Seq<char>,
    pub service: ServiceModel,
}

impl View for Service {
    type V = ServiceModel;

    open spec fn view(&self) -> ServiceModel {
        ServiceModel {
            url: match self.url {
                Some(u) => Some(u@),
                None => None,
            },
            status: match self.status {
                Some(st) => Some(st@),
                None => None,
            },
        }
    }
}

impl View for ServiceEntry {
    type V = ServiceEntryModel;

    open spec fn view(&self) -> ServiceEntryModel {
        ServiceEntryModel { name: self.name@, service: self.service@ }
    }
}

/// The models of all entries of a directory, in order.
pub open spec fn dir_models(d: Seq<ServiceEntry>) -> Seq<ServiceEntryModel> {
    d.map_values(|e: ServiceEntry| e@)
}

/// The well-known name of the forwarding-email service.
pub open spec fn service_key() -> Seq<char> {
    "premiummailsettings"@
}

/// The first entry of the directory under the given name, if any.
pub open spec fn lookup(d: Seq<ServiceEntryModel>, name: Seq<char>) -> Option<ServiceModel>
    decreases d.len(),
{
    if d.len() == 0 {
        None
    } else if d.first().name == name {
        Some(d.first().service)
    } else {
        lookup(d.drop_first(), name)
    }
}

/// The directory confirms an active forwarding-email service.
pub open spec fn directory_active(d: Seq<ServiceEntryModel>) -> bool {
    match lookup(d, service_key()) {
        Some(s) => match s.status {
            Some(st) => st == "active"@,
            None => false,
        },
        None => false,
    }
}

/// What a directory check decides: which domain error it raises, or that
/// the forwarding-email service is present and active.
pub open spec fn directory_verdict(d: Seq<ServiceEntryModel>) -> Result<(), Error> {
    match lookup(d, service_key()) {
        None => Err(Error::MissingService),
        Some(s) => match s.status {
            None => Err(Error::MissingStatus),
            Some(st) => if st == "active"@ {
                Ok(())
            } else {
                Err(Error::Inactive)
            },
        },
    }
}

/// The first entry under `name`, by linear scan.
pub(crate) fn lookup_service<'a>(d: &'a Vec<ServiceEntry>, name: &str) -> (r: Option<&'a Service>)
    ensures
        match lookup(dir_models(d@), name@) {
            Some(m) => r matches Some(s) && s@ == m,
            None => r is None,
        },
{
    let n = d.len();
    proof {
        assert(dir_models(d@).skip(0) =~= dir_models(d@));
    }
    let mut i: usize = 0;
    while i < n
        invariant
            i <= n,
            n == d@.len(),
            lookup(dir_models(d@), name@) == lookup(dir_models(d@).skip(i as int), name@),
        decreases n - i,
    {
        proof {
            assert(dir_models(d@).skip(i as int).first() == dir_models(d@)[i as int]);
            assert(dir_models(d@).skip(i as int).drop_first() =~= dir_models(d@).skip(
                i as int + 1,
            ));
        }
        if str_eq(d[i].name.as_str(), name) {
            return Some(&d[i].service);
        }
        i = i + 1;
    }
    proof {
        assert(dir_models(d@).skip(n as int) =~= Seq::<ServiceEntryModel>::empty());
    }
    None
}

/// Checks an HTTP status: a 4xx or 5xx answer is a transport failure that
/// carries the status and the raw body, and nothing else is.
pub fn check_http_status(status: u16, body: &str) -> (r: Result<(), Error>)
    ensures
        (400 <= status < 600) <==> (r is Err),
        r matches Err(e) ==> is_transport(e, status, body@),
{
    if 400 <= status && status < 600 {
        Err(Error::Transport { status, body: String::from_str(body) })
    } else {
        Ok(())
    }
}

/// The session client: the cookie set it manages and the service
/// directory discovered by the last successful validation.
#[derive(Debug)]
pub struct ICloudClient {
    services: Vec<ServiceEntry>,
    cookies: Vec<Cookie>,
}

impl ICloudClient {
    /// The directory, as a mathematical value.
    pub closed spec fn services_model(&self) -> Seq<ServiceEntryModel> {
        dir_models(self.services@)
    }

    /// The cookie set, as a mathematical value.
    pub closed spec fn cookies_model(&self) -> Seq<CookieModel> {
        jar(self.cookies@)
    }

    /// A fresh client over the given cookies, with no services discovered
    /// yet. The serialized cookie set must be encodable as an HTTP header
    /// value; `header_value_ok` decides that.
    pub fn new(cookies: &[Cookie]) -> (r: ICloudClient)
        requires
            valid_header_value(join_cookies(jar(cookies@))),
        ensures
            r.cookies_model() == jar(cookies@),
            r.services_model() == Seq::<ServiceEntryModel>::empty(),
    {
        let mut owned: Vec<Cookie> = Vec::new();
        let n = cookies.len();
        let mut i: usize = 0;
        while i < n
            invariant
                i <= n,
                n == cookies@.len(),
                owned@ == cookies@.subrange(0, i as int),
            decreases n - i,
        {
            owned.push(cookies[i].clone());
            proof {
                assert(owned@ =~= cookies@.subrange(0, i as int + 1));
            }
            i = i + 1;
        }
        proof {
            assert(cookies@.subrange(0, n as int) =~= cookies@);
            assert(dir_models(Seq::<ServiceEntry>::empty()) =~= Seq::<ServiceEntryModel>::empty());
        }
        ICloudClient { services: Vec::new(), cookies: owned }
    }

    /// The fixed root of the setup endpoints.
    pub fn setup_url() -> (r: &'static str)
        ensures
            r@ == "https://setup.icloud.com/setup/ws/1"@,
    {
        "https://setup.icloud.com/setup/ws/1"
    }

    /// The URL the validation handshake posts to.
    pub fn validate_url() -> (r: String)
        ensures
            r@ == "https://setup.icloud.com/setup/ws/1"@ + "/validate"@,
    {
        let mut u = String::from_str(Self::setup_url());
        u.append("/validate");
        u
    }

    /// The serialized cookie header of this client's cookie set.
    pub fn cookie_header(&self) -> (r: String)
        ensures
            r@ == join_cookies(self.cookies_model()),
    {
        crate::cookie::serialize_cookies(&self.cookies)
    }

    /// The current cookie set.
    pub fn cookies(&self) -> (r: &Vec<Cookie>)
        ensures
            jar(r@) == self.cookies_model(),
    {
        &self.cookies
    }

    /// The current service directory.
    pub fn services(&self) -> (r: &Vec<ServiceEntry>)
        ensures
            dir_models(r@) == self.services_model(),
    {
        &self.services
    }

    /// The forwarding-email service of the directory, if present.
    pub fn forwarding_service(&self) -> (r: Option<&Service>)
        ensures
            match lookup(self.services_model(), service_key()) {
                Some(m) => r matches Some(s) && s@ == m,
                None => r is None,
            },
    {
        lookup_service(&self.services, "premiummailsettings")
    }

    /// Applies a decoded validation outcome: checks that the directory
    /// confirms an active forwarding-email service, and only then stores
    /// it and reconciles the response cookies into the cookie set.
    pub fn apply_validation(
        &mut self,
        directory: Vec<ServiceEntry>,
        resp_cookies: &Vec<Cookie>,
    ) -> (r: Result<(), Error>)
        ensures
            r == directory_verdict(dir_models(directory@)),
            r is Ok ==> final(self).services_model() == dir_models(directory@) && final(self).cookies_model() == merge_model(old(self).cookies_model(), jar(resp_cookies@)),
            r is Err ==> final(self).services_model() == old(self).services_model() && final(self).cookies_model() == old(self).cookies_model(),
    {
        match lookup_service(&directory, "premiummailsettings") {
            None => {
                return Err(Error::MissingService);
            },
            Some(svc) => {
                match &svc.status {
                    None => {
                        return Err(Error::MissingStatus);
                    },
                    Some(st) => {
                        if !str_eq(st.as_str(), "active") {
                            return Err(Error::Inactive);
                        }
                    },
                }
            },
        }
        let merged = merge_cookies(&self.cookies, resp_cookies);
        self.cookies = merged;
        self.services = directory;
        Ok(())
    }

    /// Interprets the response of the validation handshake: a 4xx or 5xx
    /// status is a transport failure; otherwise the body must denote a
    /// service directory (`directory_of`), that directory's verdict
    /// decides the call, and on success the directory is stored and the
    /// response cookies reconciled into the cookie set. On any failure
    /// the client is unchanged.
    pub fn validate(&mut self, status: u16, body: &str, resp_cookies: &Vec<Cookie>) -> (r: Result<
        (),
        Error,
    >)
        ensures
            (400 <= status < 600) ==> (r matches Err(e) && is_transport(e, status, body@)),
            !(400 <= status < 600) ==> (match directory_of(body@) {
                Some(d) => r == directory_verdict(d),
                None => r matches Err(e) && e matches Error::Decode { .. },
            }),
            r is Ok ==> !(400 <= status < 600) && (match directory_of(body@) {
                Some(d) => final(self).services_model() == d,
                None => false,
            }) && directory_active(final(self).services_model()) && final(self).cookies_model()
                == merge_model(old(self).cookies_model(), jar(resp_cookies@)),
            r is Err ==> final(self).services_model() == old(self).services_model() && final(self).cookies_model() == old(self).cookies_model(),
    {
        match check_http_status(status, body) {
            Err(e) => {
                return Err(e);
            },
            Ok(_) => {},
        }
        let directory = match decode_directory(body) {
            Ok(d) => d,
            Err(e) => {
                return Err(e);
            },
        };
        self.apply_validation(directory, resp_cookies)
    }
}

} // verus!
