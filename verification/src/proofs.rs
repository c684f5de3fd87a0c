//! What holds of every call, proved over the transition of `exchange`.

use vstd::prelude::*;
use crate::client::{cookie_header, ApexView};
use crate::error::ApexError;
use crate::exchange::{
    after, answer, begin, react, sends, Awaiting, Event, ExchangeView, StepView,
};
use crate::http::{Method, RequestView, StatusCode};

verus! {

/// The login request carries no cookie; a request under a session carries
/// that session's cookie and no other.
pub proof fn lemma_cookie_of_requests(
    a: ApexView,
    token: Seq<char>,
    method: Method,
    path: Seq<char>,
    body: Option<Seq<u8>>,
)
    ensures
        a.login_request().header("Cookie"@) is None,
        a.authenticated(token, method, path, body).header("Cookie"@) == Some(
            "connect.sid="@ + token,
        ),
{
    reveal_strlit("Cookie");
    reveal_strlit("Accept");
    assert("Cookie"@[0] != "Accept"@[0]);
    reveal_with_fuel(RequestView::header, 3);
    let login = a.login_request();
    assert(login.headers.drop_first().len() == 0);
    let request = a.authenticated(token, method, path, body);
    assert(request.headers.drop_first()[0] == cookie_header(token));
}

/// A request is only ever handed out with an iteration to spare, and it uses
/// one up; every other step uses none. A call never uses more than two.
pub proof fn lemma_step_uses_an_iteration(a: ApexView, x: ExchangeView, event: Event)
    ensures
        ({
            let (_, next, step) = react(a, x, event);
            &&& step is Send ==> x.iterations < 2 && next.iterations == x.iterations + 1
            &&& !(step is Send) ==> next.iterations == x.iterations
            &&& step is Done || step is Failed ==> next.awaiting == Awaiting::Nothing
        }),
{
}

/// A request is handed out in answer to only two things: a login that gave
/// a token, or a response that rejected the session.
pub proof fn lemma_what_precedes_a_request(a: ApexView, x: ExchangeView, event: Event)
    requires
        react(a, x, event).2 is Send,
    ensures
        (x.awaiting == Awaiting::Token && event is Token) || (x.awaiting == Awaiting::Status
            && event is Status && event->Status_0.forbidden()),
{
}

/// A call that has ended stays ended: it hands out no further request, and
/// the store is left as it is.
pub proof fn lemma_ended_call_is_over(a: ApexView, x: ExchangeView, events: Seq<Event>)
    requires
        x.awaiting == Awaiting::Nothing,
    ensures
        after(a, x, events) == (a, x),
        sends(a, x, events) == 0,
    decreases events.len(),
{
    if events.len() > 0 {
        lemma_ended_call_is_over(a, x, events.drop_last());
    }
}

/// The requests handed out in answer to a run of events are the iterations
/// that the run used up.
pub proof fn lemma_sends_are_iterations(a: ApexView, x: ExchangeView, events: Seq<Event>)
    ensures
        after(a, x, events).1.iterations == x.iterations + sends(a, x, events),
        x.iterations <= 2 ==> after(a, x, events).1.iterations <= 2,
    decreases events.len(),
{
    if events.len() > 0 {
        lemma_sends_are_iterations(a, x, events.drop_last());
        let (a1, x1) = after(a, x, events.drop_last());
        lemma_step_uses_an_iteration(a1, x1, events.last());
    }
}

/// Whatever the driver reports, and however long it goes on reporting, one
/// call asks for at most two network round trips: the one it begins with and
/// at most one more.
pub proof fn lemma_at_most_two_round_trips(
    a: ApexView,
    capacity: nat,
    method: Method,
    path: Seq<char>,
    body: Option<Seq<u8>>,
    events: Seq<Event>,
)
    ensures
        begin(a, capacity, method, path, body).1 is Send,
        1 + sends(a, begin(a, capacity, method, path, body).0, events) <= 2,
{
    let (x, _) = begin(a, capacity, method, path, body);
    lemma_sends_are_iterations(a, x, events);
}

/// When a login succeeds, the store holds a credential, and it is the token
/// that was decoded from the response.
pub proof fn lemma_login_stores_the_token(a: ApexView, x: ExchangeView, token: String)
    requires
        x.awaiting == Awaiting::Token,
    ensures
        react(a, x, Event::Token(token)).0.session_id == Some(token@),
        react(a, x, Event::Token(token)).0 == a.with_credential(token@),
{
}

/// When the device rejects the session, the credential is cleared before
/// anything else is sent, and what is sent next is a login: it carries no
/// cookie, so the rejected credential never travels again.
pub proof fn lemma_rejected_session_is_cleared(a: ApexView, x: ExchangeView, status: StatusCode)
    requires
        x.awaiting == Awaiting::Status,
        status.forbidden(),
    ensures
        ({
            let (store, next, step) = react(a, x, Event::Status(status));
            &&& store == a.without_credential()
            &&& store.session_id is None
            &&& x.iterations < 2 ==> step == StepView::Send(store.login_request())
                && step->Send_0.header("Cookie"@) is None
            &&& x.iterations >= 2 ==> step == StepView::Failed(ApexError::Authentication)
                && next.awaiting == Awaiting::Nothing
        }),
{
    lemma_cookie_of_requests(a.without_credential(), seq![], x.method, x.path, x.body);
}

/// Every request that a call hands out presents exactly the credential that
/// the store holds at that moment: its cookie if one is held, none if not.
pub proof fn lemma_no_stale_cookie(a: ApexView, x: ExchangeView, event: Event)
    requires
        react(a, x, event).2 is Send,
    ensures
        ({
            let (store, _, step) = react(a, x, event);
            step->Send_0.header("Cookie"@) == match store.session_id {
                Some(token) => Some("connect.sid="@ + token),
                None => None,
            }
        }),
{
    let (store, _, _) = react(a, x, event);
    match store.session_id {
        Some(token) => lemma_cookie_of_requests(store, token, x.method, x.path, x.body),
        None => lemma_cookie_of_requests(store, seq![], x.method, x.path, x.body),
    }
}

/// A status that is neither success nor a rejected session ends the call at
/// once with that status: the store is untouched, no iteration is used, and
/// nothing is sent afterwards, whatever the driver goes on to report.
pub proof fn lemma_other_status_ends_the_call(
    a: ApexView,
    x: ExchangeView,
    status: StatusCode,
    later: Seq<Event>,
)
    requires
        x.awaiting == Awaiting::Status,
        !status.successful(),
        !status.forbidden(),
    ensures
        react(a, x, Event::Status(status)) == (
            a,
            x.ended(),
            StepView::Failed(ApexError::Http(status)),
        ),
        sends(a, x.ended(), later) == 0,
        after(a, x.ended(), later) == (a, x.ended()),
{
    lemma_ended_call_is_over(a, x.ended(), later);
}

/// A failed login is not tried again: any status but success ends the call
/// with that status.
pub proof fn lemma_login_is_not_retried(a: ApexView, x: ExchangeView, status: StatusCode)
    requires
        x.awaiting == Awaiting::LoginStatus,
        !status.successful(),
    ensures
        react(a, x, Event::Status(status)) == (
            a,
            x.ended(),
            StepView::Failed(ApexError::Http(status)),
        ),
{
}

/// A transport failure is never retried: whatever the call was waiting for,
/// it ends with that failure, and the store is left as it is.
pub proof fn lemma_transport_failure_ends_the_call(
    a: ApexView,
    x: ExchangeView,
    error: reqwless::Error,
)
    requires
        x.awaiting != Awaiting::Nothing,
    ensures
        react(a, x, Event::Failed(error)) == (
            a,
            x.ended(),
            StepView::Failed(ApexError::Request(error)),
        ),
{
}

/// A call is `Done` only when the body of an accepted response was read in
/// full, and then the length it gives lies within the buffer: a response is
/// whole or it is an error, never a part.
pub proof fn lemma_done_fits_the_buffer(a: ApexView, x: ExchangeView, event: Event)
    requires
        react(a, x, event).2 is Done,
    ensures
        x.awaiting == Awaiting::Body,
        event == Event::Body(react(a, x, event).2->Done_0),
        react(a, x, event).2->Done_0 <= x.capacity,
        react(a, x, event).0 == a,
        react(a, x, event).1 == x.ended(),
{
}

/// Where a call begun without a credential stands after any run of events.
spec fn cold_state(a: ApexView, x: ExchangeView) -> bool {
    ||| x.awaiting == Awaiting::Nothing
    ||| x.iterations == 1 && a.session_id is None && (x.awaiting == Awaiting::LoginStatus
        || x.awaiting == Awaiting::Token)
    ||| x.iterations == 2 && a.session_id is Some && (x.awaiting == Awaiting::Status || x.awaiting
        == Awaiting::Body)
}

proof fn lemma_cold_state_is_kept(a: ApexView, x: ExchangeView, events: Seq<Event>)
    requires
        cold_state(a, x),
    ensures
        cold_state(after(a, x, events).0, after(a, x, events).1),
    decreases events.len(),
{
    if events.len() > 0 {
        lemma_cold_state_is_kept(a, x, events.drop_last());
    }
}

/// When a call that began without a credential ends with `Authentication`,
/// both iterations are used up and the store ends without a credential: the
/// login gave a token, and the device rejected it.
pub proof fn lemma_exhausted_call_leaves_no_credential(
    a: ApexView,
    capacity: nat,
    method: Method,
    path: Seq<char>,
    body: Option<Seq<u8>>,
    events: Seq<Event>,
)
    requires
        a.session_id is None,
        events.len() > 0,
        answer(a, begin(a, capacity, method, path, body).0, events) == StepView::Failed(
            ApexError::Authentication,
        ),
    ensures
        after(a, begin(a, capacity, method, path, body).0, events).0.session_id is None,
        after(a, begin(a, capacity, method, path, body).0, events).1.iterations == 2,
        after(a, begin(a, capacity, method, path, body).0, events).1.awaiting == Awaiting::Nothing,
{
    let (x, _) = begin(a, capacity, method, path, body);
    lemma_cold_state_is_kept(a, x, events.drop_last());
}

/// `Authentication` is the error of a used-up call and of nothing else: it
/// is given only when both iterations are gone, either after a login that
/// gave a token, which the store then holds, or after a rejected session,
/// which leaves the store without a credential.
pub proof fn lemma_authentication_means_exhausted(a: ApexView, x: ExchangeView, event: Event)
    requires
        react(a, x, event).2 == StepView::Failed(ApexError::Authentication),
    ensures
        x.iterations >= 2,
        react(a, x, event).1.awaiting == Awaiting::Nothing,
        (x.awaiting == Awaiting::Token && event is Token && react(a, x, event).0.session_id
            == Some(event->Token_0@)) || (x.awaiting == Awaiting::Status && event is Status
            && event->Status_0.forbidden() && react(a, x, event).0.session_id is None),
{
}

/// A call from which no further request can come: it has ended, or both of
/// its iterations are used up.
spec fn settled(x: ExchangeView) -> bool {
    x.awaiting == Awaiting::Nothing || x.iterations >= 2
}

proof fn lemma_settled_is_kept(a: ApexView, x: ExchangeView, event: Event)
    requires
        settled(x),
    ensures
        settled(react(a, x, event).1),
        !(react(a, x, event).2 is Send),
{
}

/// After two reports, whatever they are, a call is settled.
proof fn lemma_settled_after_two(
    a: ApexView,
    capacity: nat,
    method: Method,
    path: Seq<char>,
    body: Option<Seq<u8>>,
    events: Seq<Event>,
)
    requires
        events.len() >= 2,
    ensures
        settled(after(a, begin(a, capacity, method, path, body).0, events).1),
    decreases events.len(),
{
    let (x, _) = begin(a, capacity, method, path, body);
    let earlier = events.drop_last();
    let (a1, x1) = after(a, x, earlier);
    if events.len() == 2 {
        assert(earlier.drop_last().len() == 0);
        assert(after(a, x, earlier.drop_last()) == (a, x));
    } else {
        lemma_settled_after_two(a, capacity, method, path, body, earlier);
        lemma_settled_is_kept(a1, x1, events.last());
    }
}

/// The second round trip of a call comes about in two ways and no others.
/// A call that began without a credential began with a login, and sends the
/// caller's request once that login has succeeded and given its token. A call
/// that began with a credential sends a login once its first attempt was
/// rejected. Nothing else is ever followed by a request.
pub proof fn lemma_second_round_trip(
    a: ApexView,
    capacity: nat,
    method: Method,
    path: Seq<char>,
    body: Option<Seq<u8>>,
    events: Seq<Event>,
)
    requires
        events.len() > 0,
        answer(a, begin(a, capacity, method, path, body).0, events) is Send,
    ensures
        match a.session_id {
            None => {
                &&& begin(a, capacity, method, path, body).1 == StepView::Send(a.login_request())
                &&& events.len() == 2
                &&& events[0] is Status
                &&& events[0]->Status_0.successful()
                &&& events[1] is Token
            },
            Some(token) => {
                &&& begin(a, capacity, method, path, body).1 == StepView::Send(
                    a.authenticated(token, method, path, body),
                )
                &&& events.len() == 1
                &&& events[0] is Status
                &&& events[0]->Status_0.forbidden()
                &&& answer(a, begin(a, capacity, method, path, body).0, events) == StepView::Send(
                    a.without_credential().login_request(),
                )
            },
        },
{
    let (x, _) = begin(a, capacity, method, path, body);
    let earlier = events.drop_last();
    let (a1, x1) = after(a, x, earlier);
    if earlier.len() == 0 {
    } else if earlier.len() == 1 {
        assert(earlier.drop_last().len() == 0);
        assert(after(a, x, earlier.drop_last()) == (a, x));
        assert(earlier.last() == events[0]);
    } else {
        lemma_settled_after_two(a, capacity, method, path, body, earlier);
        lemma_settled_is_kept(a1, x1, events.last());
    }
}

} // verus!
