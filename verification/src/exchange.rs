//! One call to the device, as a state machine.
//!
//! A call is a bounded loop: at most two iterations, each of which is one
//! network round trip, either a login or the caller's request with the
//! session cookie. The loop's decisions are taken here; the driver that owns
//! the connection sends what it is handed and reports what came back.

use vstd::prelude::*;
use vstd::string::StrSliceExecFns;
use vstd::utf8::encode_utf8;
use crate::client::{feed_body, feed_body_text, feed_path, feed_path_text, Apex, ApexView};
use crate::error::ApexError;
use crate::feed::Feed;
use crate::http::{Method, Request, RequestView, StatusCode};

verus! {

/// What the driver reports to a call.
#[derive(Debug)]
pub enum Event {
    /// The transport failed: no connection, a broken one, or a response that
    /// did not fit the buffer.
    Failed(reqwless::Error),
    /// The head of the response arrived, with this status.
    Status(StatusCode),
    /// The body of the login response held this session token.
    Token(String),
    /// The body of the login response could not be decoded.
    Undecodable(serde_json::Error),
    /// The body of the response was read to its end and fills this many bytes
    /// at the start of the buffer.
    Body(usize),
}

/// What a call asks of the driver next, or how it ended.
#[derive(Debug)]
pub enum Step {
    /// Send this request and report the `Status` of the response.
    Send(Request),
    /// Read the body of the login response, decode the session token and
    /// report the `Token`.
    ReadToken,
    /// Read the body of the response into the buffer and report the `Body`.
    ReadBody,
    /// The call succeeded: the response fills this many bytes at the start
    /// of the buffer.
    Done(usize),
    /// The call failed.
    Failed(ApexError),
}

/// A step as plain values.
pub enum StepView {
    Send(RequestView),
    ReadToken,
    ReadBody,
    Done(usize),
    Failed(ApexError),
}

impl View for Step {
    type V = StepView;

    open spec fn view(&self) -> StepView {
        match *self {
            Step::Send(request) => StepView::Send(request@),
            Step::ReadToken => StepView::ReadToken,
            Step::ReadBody => StepView::ReadBody,
            Step::Done(len) => StepView::Done(len),
            Step::Failed(error) => StepView::Failed(error),
        }
    }
}

/// What a call is waiting for.
#[derive(Clone, Copy, Debug, PartialEq, Eq, Structural)]
pub enum Awaiting {
    /// The status of the login response.
    LoginStatus,
    /// The session token from the login response.
    Token,
    /// The status of the response to the caller's request.
    Status,
    /// The body of the response to the caller's request.
    Body,
    /// Nothing: the call has ended.
    Nothing,
}

/// A call as plain values.
pub struct ExchangeView {
    /// The method of the caller's request.
    pub method: Method,
    /// Its path below the base URL.
    pub path: Seq<char>,
    /// Its body, if it has one.
    pub body: Option<Seq<u8>>,
    /// The capacity of the buffer that responses are received in.
    pub capacity: nat,
    /// The iterations used up so far: the round trips asked for.
    pub iterations: nat,
    /// What the call is waiting for.
    pub awaiting: Awaiting,
}

impl ExchangeView {
    /// The same call, waiting for something else.
    pub open spec fn waiting(self, awaiting: Awaiting) -> ExchangeView {
        ExchangeView { awaiting, ..self }
    }

    /// The same call, ended.
    pub open spec fn ended(self) -> ExchangeView {
        self.waiting(Awaiting::Nothing)
    }
}

/// The head of the loop. With both iterations used up the call fails for
/// good. Otherwise one more is used: without a credential it is a login, with
/// one it is the caller's request under the session cookie.
pub open spec fn enter(a: ApexView, x: ExchangeView) -> (ExchangeView, StepView) {
    if x.iterations >= 2 {
        (x.ended(), StepView::Failed(ApexError::Authentication))
    } else {
        let used = ExchangeView { iterations: x.iterations + 1, ..x };
        match a.session_id {
            None => (used.waiting(Awaiting::LoginStatus), StepView::Send(a.login_request())),
            Some(token) => (
                used.waiting(Awaiting::Status),
                StepView::Send(a.authenticated(token, x.method, x.path, x.body)),
            ),
        }
    }
}

/// The start of a call: nothing used up, and the loop entered.
pub open spec fn begin(
    a: ApexView,
    capacity: nat,
    method: Method,
    path: Seq<char>,
    body: Option<Seq<u8>>,
) -> (ExchangeView, StepView) {
    enter(
        a,
        ExchangeView { method, path, body, capacity, iterations: 0, awaiting: Awaiting::Nothing },
    )
}

/// What follows the status of a login response: a success has its token
/// read, anything else ends the call with that status.
pub open spec fn on_login_status(a: ApexView, x: ExchangeView, status: StatusCode) -> (
    ApexView,
    ExchangeView,
    StepView,
) {
    if status.successful() {
        (a, x.waiting(Awaiting::Token), StepView::ReadToken)
    } else {
        (a, x.ended(), StepView::Failed(ApexError::Http(status)))
    }
}

/// What follows the status of the response to the caller's request: a success
/// has its body read; a rejected session clears the credential and enters the
/// loop again; anything else ends the call with that status.
pub open spec fn on_status(a: ApexView, x: ExchangeView, status: StatusCode) -> (
    ApexView,
    ExchangeView,
    StepView,
) {
    if status.successful() {
        (a, x.waiting(Awaiting::Body), StepView::ReadBody)
    } else if status.forbidden() {
        let cleared = a.without_credential();
        let (next, step) = enter(cleared, x);
        (cleared, next, step)
    } else {
        (a, x.ended(), StepView::Failed(ApexError::Http(status)))
    }
}

/// The end of a call that was told something it was not waiting for.
pub open spec fn out_of_turn(a: ApexView, x: ExchangeView) -> (ApexView, ExchangeView, StepView) {
    (a, x.ended(), StepView::Failed(ApexError::Unknown))
}

/// The whole transition: the store, the call and the step that follow one
/// event.
pub open spec fn react(a: ApexView, x: ExchangeView, event: Event) -> (
    ApexView,
    ExchangeView,
    StepView,
) {
    if x.awaiting == Awaiting::Nothing {
        out_of_turn(a, x)
    } else {
        match event {
            Event::Failed(error) => (a, x.ended(), StepView::Failed(ApexError::Request(error))),
            Event::Status(status) => {
                if x.awaiting == Awaiting::LoginStatus {
                    on_login_status(a, x, status)
                } else if x.awaiting == Awaiting::Status {
                    on_status(a, x, status)
                } else {
                    out_of_turn(a, x)
                }
            },
            Event::Token(token) => {
                if x.awaiting == Awaiting::Token {
                    let stored = a.with_credential(token@);
                    let (next, step) = enter(stored, x);
                    (stored, next, step)
                } else {
                    out_of_turn(a, x)
                }
            },
            Event::Undecodable(error) => {
                if x.awaiting == Awaiting::Token {
                    (a, x.ended(), StepView::Failed(ApexError::Json(error)))
                } else {
                    out_of_turn(a, x)
                }
            },
            Event::Body(len) => {
                if x.awaiting == Awaiting::Body && len <= x.capacity {
                    (a, x.ended(), StepView::Done(len))
                } else {
                    out_of_turn(a, x)
                }
            },
        }
    }
}

/// The store and the call after the driver has reported `events` in order.
pub open spec fn after(a: ApexView, x: ExchangeView, events: Seq<Event>) -> (ApexView, ExchangeView)
    decreases events.len(),
{
    if events.len() == 0 {
        (a, x)
    } else {
        let (a1, x1) = after(a, x, events.drop_last());
        let (a2, x2, _) = react(a1, x1, events.last());
        (a2, x2)
    }
}

/// The step that answers the last of `events`.
pub open spec fn answer(a: ApexView, x: ExchangeView, events: Seq<Event>) -> StepView
    recommends
        events.len() > 0,
{
    let (a1, x1) = after(a, x, events.drop_last());
    react(a1, x1, events.last()).2
}

/// How many of `events` are answered with a request to send.
pub open spec fn sends(a: ApexView, x: ExchangeView, events: Seq<Event>) -> nat
    decreases events.len(),
{
    if events.len() == 0 {
        0
    } else {
        sends(a, x, events.drop_last()) + if answer(a, x, events) is Send {
            1nat
        } else {
            0nat
        }
    }
}

/// One call to the device in progress.
#[derive(Debug)]
pub struct Exchange {
    method: Method,
    path: String,
    body: Option<Vec<u8>>,
    capacity: usize,
    iterations: u8,
    awaiting: Awaiting,
}

impl View for Exchange {
    type V = ExchangeView;

    closed spec fn view(&self) -> ExchangeView {
        ExchangeView {
            method: self.method,
            path: self.path@,
            body: match self.body {
                Some(bytes) => Some(bytes@),
                None => None,
            },
            capacity: self.capacity as nat,
            iterations: self.iterations as nat,
            awaiting: self.awaiting,
        }
    }
}

impl Exchange {
    /// The head of the loop.
    fn enter(&mut self, apex: &Apex) -> (step: Step)
        ensures
            (final(self)@, step@) == enter(apex@, old(self)@),
    {
        if self.iterations >= 2 {
            self.awaiting = Awaiting::Nothing;
            return Step::Failed(ApexError::Authentication);
        }
        self.iterations = self.iterations + 1;
        let body = match &self.body {
            Some(bytes) => Some(bytes.as_slice()),
            None => None,
        };
        match apex.authenticated(self.method, self.path.as_str(), body) {
            Some(request) => {
                self.awaiting = Awaiting::Status;
                Step::Send(request)
            },
            None => {
                self.awaiting = Awaiting::LoginStatus;
                Step::Send(apex.login_request())
            },
        }
    }

    /// Ends the call because the driver spoke out of turn.
    fn out_of_turn(&mut self) -> (step: Step)
        ensures
            final(self)@ == old(self)@.ended(),
            step@ == StepView::Failed(ApexError::Unknown),
    {
        self.awaiting = Awaiting::Nothing;
        Step::Failed(ApexError::Unknown)
    }

    /// Takes the driver's report and says what to do next.
    ///
    /// The store changes in two places only: a decoded token is stored, and a
    /// rejected session clears the credential before the loop is entered
    /// again.
    pub fn advance(&mut self, apex: &mut Apex, event: Event) -> (step: Step)
        ensures
            (final(apex)@, final(self)@, step@) == react(old(apex)@, old(self)@, event),
    {
        match self.awaiting {
            Awaiting::Nothing => self.out_of_turn(),
            awaiting => match event {
                Event::Failed(error) => {
                    self.awaiting = Awaiting::Nothing;
                    Step::Failed(ApexError::Request(error))
                },
                Event::Status(status) => match awaiting {
                    Awaiting::LoginStatus => {
                        if status.is_successful() {
                            self.awaiting = Awaiting::Token;
                            Step::ReadToken
                        } else {
                            self.awaiting = Awaiting::Nothing;
                            Step::Failed(ApexError::Http(status))
                        }
                    },
                    Awaiting::Status => {
                        if status.is_successful() {
                            self.awaiting = Awaiting::Body;
                            Step::ReadBody
                        } else if status.is_forbidden() {
                            apex.clear_credential();
                            self.enter(apex)
                        } else {
                            self.awaiting = Awaiting::Nothing;
                            Step::Failed(ApexError::Http(status))
                        }
                    },
                    _ => self.out_of_turn(),
                },
                Event::Token(token) => match awaiting {
                    Awaiting::Token => {
                        apex.set_credential(token);
                        self.enter(apex)
                    },
                    _ => self.out_of_turn(),
                },
                Event::Undecodable(error) => match awaiting {
                    Awaiting::Token => {
                        self.awaiting = Awaiting::Nothing;
                        Step::Failed(ApexError::Json(error))
                    },
                    _ => self.out_of_turn(),
                },
                Event::Body(len) => match awaiting {
                    Awaiting::Body => {
                        if len <= self.capacity {
                            self.awaiting = Awaiting::Nothing;
                            Step::Done(len)
                        } else {
                            self.out_of_turn()
                        }
                    },
                    _ => self.out_of_turn(),
                },
            },
        }
    }

    /// The round trips that the call has asked for so far.
    pub fn round_trips(&self) -> (count: u8)
        ensures
            count == self@.iterations,
    {
        self.iterations
    }

    /// What the call is waiting for.
    pub fn awaiting(&self) -> (awaiting: Awaiting)
        ensures
            awaiting == self@.awaiting,
    {
        self.awaiting
    }
}

impl Apex {
    /// Starts a call: `method` on `path`, with `body` if there is one, whose
    /// response is to be received in a buffer of `capacity` bytes.
    pub fn request(&self, capacity: usize, method: Method, path: &str, body: Option<&[u8]>) -> (started:
        (Exchange, Step))
        ensures
            (started.0@, started.1@) == begin(
                self@,
                capacity as nat,
                method,
                path@,
                match body {
                    Some(bytes) => Some(bytes@),
                    None => None,
                },
            ),
    {
        let body = match body {
            Some(bytes) => Some(vstd::slice::slice_to_vec(bytes)),
            None => None,
        };
        let mut exchange = Exchange {
            method,
            path: path.to_owned(),
            body,
            capacity,
            iterations: 0,
            awaiting: Awaiting::Nothing,
        };
        let step = exchange.enter(self);
        (exchange, step)
    }

    /// Starts the call that fetches the status of the Apex. The body of its
    /// response is the status document.
    pub fn status(&self, capacity: usize) -> (started: (Exchange, Step))
        ensures
            (started.0@, started.1@) == begin(
                self@,
                capacity as nat,
                Method::Get,
                "rest/status"@,
                None,
            ),
    {
        self.request(capacity, Method::Get, "rest/status", None)
    }

    /// Starts the call that sets the feed cycle of the Apex. The body of its
    /// response is the command, echoed.
    pub fn feed(&self, capacity: usize, feed: Feed) -> (started: (Exchange, Step))
        ensures
            (started.0@, started.1@) == begin(
                self@,
                capacity as nat,
                Method::Put,
                feed_path_text(feed),
                Some(encode_utf8(feed_body_text(feed))),
            ),
    {
        let body = feed_body(feed).as_str().as_bytes_vec();
        let path = feed_path(feed);
        self.request(capacity, Method::Put, path.as_str(), Some(body.as_slice()))
    }
}

/// The response of a call that is `Done`: the first `len` bytes of the
/// buffer, borrowed from it. A length beyond the buffer gives nothing rather
/// than a shorter view.
pub fn response_view<'a>(buffer: &'a [u8], len: usize) -> (view: Option<&'a [u8]>)
    ensures
        match view {
            Some(bytes) => len <= buffer@.len() && bytes@ == buffer@.take(len as int),
            None => len > buffer@.len(),
        },
{
    if len <= buffer.len() {
        Some(vstd::slice::slice_subrange(buffer, 0, len))
    } else {
        None
    }
}

} // verus!
