//! The client's configuration and session store, and the requests it forms.

use vstd::prelude::*;
use vstd::string::{StrSliceExecFns, StringExecFns};
use vstd::utf8::encode_utf8;
use crate::error::ApexError;
use crate::feed::Feed;
use crate::http::{ContentType, Header, HeaderView, Method, Request, RequestView};
use crate::text::{decimal, decimal_text, json_quote, json_string};

verus! {

/// The body of a login request, given the JSON string literals of the login
/// name and of the password.
pub open spec fn login_body_text(login: Seq<char>, password: Seq<char>) -> Seq<char> {
    "{\"login\":"@ + login + ",\"password\":"@ + password + ",\"remember_me\":false}"@
}

/// The body of a feed command: the cycle's code, active, and no error.
pub open spec fn feed_body_text(feed: Feed) -> Seq<char> {
    "{\"name\":"@ + decimal_text(feed.spec_code() as nat)
        + ",\"active\":1,\"error_code\":0,\"error_message\":\"\"}"@
}

/// The path, below the base URL, that a feed command is sent to.
pub open spec fn feed_path_text(feed: Feed) -> Seq<char> {
    "rest/status/feed/"@ + decimal_text(feed.spec_code() as nat)
}

/// The header that every request carries.
pub open spec fn accept_header() -> HeaderView {
    HeaderView { name: "Accept"@, value: "*/*"@ }
}

/// The header that presents a session credential.
pub open spec fn cookie_header(token: Seq<char>) -> HeaderView {
    HeaderView { name: "Cookie"@, value: "connect.sid="@ + token }
}

/// A client as plain values: its configuration and the session store.
pub struct ApexView {
    /// The base URL, ending in a slash.
    pub url_base: Seq<char>,
    /// The login name.
    pub login: Seq<char>,
    /// The login secret.
    pub password: Seq<char>,
    /// The session credential, if one is held.
    pub session_id: Option<Seq<char>>,
}

impl ApexView {
    /// Whether `serde_json` can encode the login name and the password.
    pub open spec fn encodable(self) -> bool {
        json_string(self.login) is Some && json_string(self.password) is Some
    }

    /// The absolute URL of a path below the base URL.
    pub open spec fn url(self, path: Seq<char>) -> Seq<char> {
        self.url_base + path
    }

    /// The store with `token` as its credential.
    pub open spec fn with_credential(self, token: Seq<char>) -> ApexView {
        ApexView { session_id: Some(token), ..self }
    }

    /// The store without a credential.
    pub open spec fn without_credential(self) -> ApexView {
        ApexView { session_id: None, ..self }
    }

    /// The login request: the credentials as JSON, posted to the login path,
    /// with no cookie.
    pub open spec fn login_request(self) -> RequestView {
        RequestView {
            method: Method::Post,
            url: self.url("rest/login"@),
            content_type: Some(ContentType::ApplicationJson),
            headers: seq![accept_header()],
            body: Some(
                encode_utf8(
                    login_body_text(
                        json_string(self.login).unwrap(),
                        json_string(self.password).unwrap(),
                    ),
                ),
            ),
        }
    }

    /// A request that presents `token` as the session cookie.
    pub open spec fn authenticated(
        self,
        token: Seq<char>,
        method: Method,
        path: Seq<char>,
        body: Option<Seq<u8>>,
    ) -> RequestView {
        RequestView {
            method,
            url: self.url(path),
            content_type: None,
            headers: seq![accept_header(), cookie_header(token)],
            body,
        }
    }
}

/// Neptune Apex client: where the device is, how to log in, and the session
/// credential that the last login gave.
pub struct Apex {
    url_base: String,
    login: String,
    password: String,
    login_body: String,
    session_id: Option<String>,
}

impl View for Apex {
    type V = ApexView;

    closed spec fn view(&self) -> ApexView {
        ApexView {
            url_base: self.url_base@,
            login: self.login@,
            password: self.password@,
            session_id: match self.session_id {
                Some(token) => Some(token@),
                None => None,
            },
        }
    }
}

/// Frames the body of a login request round the JSON string literals of the
/// login name and of the password.
pub fn login_body(login: &str, password: &str) -> (body: String)
    ensures
        body@ == login_body_text(login@, password@),
{
    let mut body = String::from_str("{\"login\":");
    body.append(login);
    body.append(",\"password\":");
    body.append(password);
    body.append(",\"remember_me\":false}");
    body
}

/// The body of the command that starts, or cancels, a feed cycle.
pub fn feed_body(feed: Feed) -> (body: String)
    ensures
        body@ == feed_body_text(feed),
{
    let code = decimal(feed.code());
    let mut body = String::from_str("{\"name\":");
    body.append(code.as_str());
    body.append(",\"active\":1,\"error_code\":0,\"error_message\":\"\"}");
    body
}

/// The path that a feed command for this cycle is sent to.
pub fn feed_path(feed: Feed) -> (path: String)
    ensures
        path@ == feed_path_text(feed),
{
    let code = decimal(feed.code());
    let mut path = String::from_str("rest/status/feed/");
    path.append(code.as_str());
    path
}

impl Apex {
    #[verifier::type_invariant]
    spec fn well_formed(&self) -> bool {
        &&& json_string(self.login@) is Some
        &&& json_string(self.password@) is Some
        &&& self.login_body@ == login_body_text(
            json_string(self.login@).unwrap(),
            json_string(self.password@).unwrap(),
        )
    }

    /// Creates a client for the device at `hostname`.
    ///
    /// `session_id` may be passed in if one was saved from a previous
    /// session. The credentials are encoded for the login request here, once;
    /// if `serde_json` cannot encode them, no client is made.
    pub fn new(hostname: &str, login: &str, password: &str, session_id: Option<&str>) -> (made:
        Result<Apex, ApexError>)
        ensures
            match made {
                Ok(apex) => {
                    &&& apex@.encodable()
                    &&& apex@ == (ApexView {
                        url_base: "http://"@ + hostname@ + "/"@,
                        login: login@,
                        password: password@,
                        session_id: match session_id {
                            Some(token) => Some(token@),
                            None => None,
                        },
                    })
                },
                Err(error) => {
                    &&& error is Json
                    &&& json_string(login@) is None || json_string(password@) is None
                },
            },
    {
        let login_literal = match json_quote(login) {
            Ok(literal) => literal,
            Err(error) => {
                return Err(ApexError::Json(error));
            },
        };
        let password_literal = match json_quote(password) {
            Ok(literal) => literal,
            Err(error) => {
                return Err(ApexError::Json(error));
            },
        };
        let mut url_base = String::from_str("http://");
        url_base.append(hostname);
        url_base.append("/");
        let session_id = match session_id {
            Some(token) => Some(String::from_str(token)),
            None => None,
        };
        Ok(
            Apex {
                url_base,
                login: String::from_str(login),
                password: String::from_str(password),
                login_body: login_body(login_literal.as_str(), password_literal.as_str()),
                session_id,
            },
        )
    }

    /// The absolute URL of a path below the base URL.
    pub fn url(&self, path: &str) -> (url: String)
        ensures
            url@ == self@.url(path@),
    {
        let mut url = String::from_str(self.url_base.as_str());
        url.append(path);
        url
    }

    /// Whether a session credential is held.
    pub fn has_credential(&self) -> (held: bool)
        ensures
            held == self@.session_id is Some,
    {
        self.session_id.is_some()
    }

    /// The session credential, if one is held, for a caller that wants to
    /// keep it beyond this client's life.
    pub fn credential(&self) -> (token: Option<&str>)
        ensures
            match token {
                Some(text) => self@.session_id == Some(text@),
                None => self@.session_id is None,
            },
    {
        match &self.session_id {
            Some(token) => Some(token.as_str()),
            None => None,
        }
    }

    /// Replaces the session credential, whatever was held before.
    pub fn set_credential(&mut self, token: String)
        ensures
            final(self)@ == old(self)@.with_credential(token@),
    {
        proof {
            use_type_invariant(&*self);
        }
        self.session_id = Some(token);
    }

    /// Drops the session credential.
    pub fn clear_credential(&mut self)
        ensures
            final(self)@ == old(self)@.without_credential(),
    {
        proof {
            use_type_invariant(&*self);
        }
        self.session_id = None;
    }

    /// The login request.
    pub fn login_request(&self) -> (request: Request)
        ensures
            request@ == self@.login_request(),
    {
        proof {
            use_type_invariant(self);
        }
        let mut headers: Vec<Header> = Vec::new();
        headers.push(Header { name: String::from_str("Accept"), value: String::from_str("*/*") });
        let request = Request {
            method: Method::Post,
            url: self.url("rest/login"),
            content_type: Some(ContentType::ApplicationJson),
            headers,
            body: Some(self.login_body.as_str().as_bytes_vec()),
        };
        assert(request@.headers =~= seq![accept_header()]);
        request
    }

    /// The request for `path` that presents the held credential as the
    /// session cookie, or `None` where no credential is held.
    pub fn authenticated(&self, method: Method, path: &str, body: Option<&[u8]>) -> (request:
        Option<Request>)
        ensures
            match self@.session_id {
                Some(token) => request matches Some(r) && r@ == self@.authenticated(
                    token,
                    method,
                    path@,
                    match body {
                        Some(bytes) => Some(bytes@),
                        None => None,
                    },
                ),
                None => request is None,
            },
    {
        match &self.session_id {
            None => None,
            Some(token) => {
                let mut cookie = String::from_str("connect.sid=");
                cookie.append(token.as_str());
                let mut headers: Vec<Header> = Vec::new();
                headers.push(
                    Header { name: String::from_str("Accept"), value: String::from_str("*/*") },
                );
                headers.push(Header { name: String::from_str("Cookie"), value: cookie });
                let body = match body {
                    Some(bytes) => Some(vstd::slice::slice_to_vec(bytes)),
                    None => None,
                };
                let request = Request {
                    method,
                    url: self.url(path),
                    content_type: None,
                    headers,
                    body,
                };
                assert(request@.headers =~= seq![accept_header(), cookie_header(token@)]);
                Some(request)
            },
        }
    }
}

} // verus!
