//! The plain HTTP values that the client core reads and produces.

use vstd::prelude::*;

verus! {

/// Request methods that the client uses.
#[derive(Clone, Copy, Debug, PartialEq, Eq, Structural)]
pub enum Method {
    /// `GET`
    Get,
    /// `POST`
    Post,
    /// `PUT`
    Put,
}

/// Content types that the client declares for a request body.
#[derive(Clone, Copy, Debug, PartialEq, Eq, Structural)]
pub enum ContentType {
    /// `application/json`
    ApplicationJson,
}

/// An HTTP status code, as the number the device answered with.
#[derive(Clone, Copy, Debug, PartialEq, Eq, Structural)]
pub struct StatusCode(pub u16);

/// `reqwless::response::StatusCode::is_successful` on the status with this
/// number. Trusted: the answer is `true` exactly for the numbers 200 to 299.
#[verifier::external_body]
fn code_is_successful(code: u16) -> (yes: bool)
    ensures
        yes == (200 <= code <= 299),
{
    reqwless::response::StatusCode(code).is_successful()
}

/// The comparison of `reqwless::response::StatusCode` with
/// `reqwless::response::Status::Forbidden`. Trusted: the two are equal
/// exactly when the number is 403.
#[verifier::external_body]
fn code_is_forbidden(code: u16) -> (yes: bool)
    ensures
        yes == (code == 403),
{
    reqwless::response::StatusCode(code) == reqwless::response::Status::Forbidden
}

impl StatusCode {
    /// A status of the success class, 200 to 299.
    pub open spec fn successful(self) -> bool {
        200 <= self.0 <= 299
    }

    /// The status that rejects the session and asks for a new login: 403.
    pub open spec fn forbidden(self) -> bool {
        self.0 == 403
    }

    /// Whether the request succeeded.
    #[verifier::when_used_as_spec(successful)]
    pub fn is_successful(self) -> (yes: bool)
        ensures
            yes == self.successful(),
    {
        code_is_successful(self.0)
    }

    /// Whether the device rejected the session credential.
    #[verifier::when_used_as_spec(forbidden)]
    pub fn is_forbidden(self) -> (yes: bool)
        ensures
            yes == self.forbidden(),
    {
        code_is_forbidden(self.0)
    }
}

/// One header line of a request.
#[derive(Debug)]
pub struct Header {
    /// The header's name.
    pub name: String,
    /// The header's value.
    pub value: String,
}

/// A header as plain text.
pub struct HeaderView {
    pub name: Seq<char>,
    pub value: Seq<char>,
}

impl View for Header {
    type V = HeaderView;

    open spec fn view(&self) -> HeaderView {
        HeaderView { name: self.name@, value: self.value@ }
    }
}

/// A request for the driver to send: one network round trip.
#[derive(Debug)]
pub struct Request {
    /// The request method.
    pub method: Method,
    /// The absolute URL.
    pub url: String,
    /// The content type to declare for the body, if any.
    pub content_type: Option<ContentType>,
    /// The header lines to add, in order.
    pub headers: Vec<Header>,
    /// The body to send, if any.
    pub body: Option<Vec<u8>>,
}

/// A request as plain values.
pub struct RequestView {
    pub method: Method,
    pub url: Seq<char>,
    pub content_type: Option<ContentType>,
    pub headers: Seq<HeaderView>,
    pub body: Option<Seq<u8>>,
}

impl View for Request {
    type V = RequestView;

    open spec fn view(&self) -> RequestView {
        RequestView {
            method: self.method,
            url: self.url@,
            content_type: self.content_type,
            headers: self.headers@.map_values(|h: Header| h@),
            body: match self.body {
                Some(bytes) => Some(bytes@),
                None => None,
            },
        }
    }
}

impl RequestView {
    /// The value of the first header of this name, if the request has one.
    pub open spec fn header(self, name: Seq<char>) -> Option<Seq<char>>
        decreases self.headers.len(),
    {
        if self.headers.len() == 0 {
            None
        } else if self.headers[0].name == name {
            Some(self.headers[0].value)
        } else {
            (RequestView { headers: self.headers.drop_first(), ..self }).header(name)
        }
    }
}

} // verus!
