//! The request handler as a state machine.
//!
//! One inbound request is one `Exchange`. The driver asks it for the first
//! outbound call, performs that call, hands the outcome back, and repeats
//! until the exchange answers with a reply for the caller. The exchange
//! itself performs no I/O, so every decision it takes is verified here.

use vstd::prelude::*;
use crate::endpoints::{ExternalUrls, UrlsSpec};

verus! {

/// The fixed text body carried by each outbound GET.
pub const OUTBOUND_BODY: &'static str = "body";

/// Status code of the reply when an outbound call fails.
pub const INTERNAL_SERVER_ERROR: u16 = 500;

/// Which of the two outbound calls is meant.
#[derive(PartialEq, Eq, Structural, Clone, Copy, Debug)]
pub enum Hop {
    First,
    Second,
}

/// Where an exchange stands.
#[derive(PartialEq, Eq, Structural, Clone, Copy, Debug)]
pub enum Phase {
    /// Nothing has been sent yet.
    Ready,
    /// The call to the first upstream is in flight.
    AwaitingFirst,
    /// The call to the second upstream is in flight.
    AwaitingSecond,
    /// The caller has been answered.
    Finished,
}

/// An outbound GET, in mathematical terms.
pub struct RequestSpec {
    pub url: Seq<char>,
    pub body: Seq<char>,
}

/// A reply to the caller, in mathematical terms.
pub enum ReplySpec<R> {
    Forward(R),
    Failure { status: u16, body: Seq<char> },
}

/// A step of an exchange, in mathematical terms.
pub enum ActionSpec<R> {
    Send(RequestSpec),
    Respond(ReplySpec<R>),
}

/// An outbound GET request to make.
#[derive(Debug)]
pub struct OutboundGet {
    pub url: String,
    pub body: String,
}

impl View for OutboundGet {
    type V = RequestSpec;

    open spec fn view(&self) -> RequestSpec {
        RequestSpec { url: self.url@, body: self.body@ }
    }
}

/// A plain-text error reply.
#[derive(Debug)]
pub struct ErrorReply {
    pub status: u16,
    pub body: String,
}

/// What the caller of the relay receives.
#[derive(Debug)]
pub enum Reply<R> {
    /// An upstream response, handed on unchanged.
    Forward(R),
    /// An error reply made by the relay.
    Failure(ErrorReply),
}

impl<R> View for Reply<R> {
    type V = ReplySpec<R>;

    open spec fn view(&self) -> ReplySpec<R> {
        match self {
            Reply::Forward(r) => ReplySpec::Forward(*r),
            Reply::Failure(e) => ReplySpec::Failure { status: e.status, body: e.body@ },
        }
    }
}

/// What the driver of an exchange must do next.
#[derive(Debug)]
pub enum Action<R> {
    /// Perform this GET and report its outcome.
    Send(OutboundGet),
    /// Answer the caller; the exchange is over.
    Respond(Reply<R>),
}

impl<R> View for Action<R> {
    type V = ActionSpec<R>;

    open spec fn view(&self) -> ActionSpec<R> {
        match self {
            Action::Send(g) => ActionSpec::Send(g@),
            Action::Respond(r) => ActionSpec::Respond(r@),
        }
    }
}

/// The GET sent to an upstream.
pub open spec fn get_to(url: Seq<char>) -> RequestSpec {
    RequestSpec { url, body: OUTBOUND_BODY@ }
}

/// The body of the error reply when the given call failed with `details`.
pub open spec fn failure_text(hop: Hop, details: Seq<char>) -> Seq<char> {
    match hop {
        Hop::First => "Error making request 1\n"@ + details,
        Hop::Second => "Error making request 2\n"@ + details,
    }
}

/// The error reply when the given call failed with `details`.
pub open spec fn failure_reply<R>(hop: Hop, details: Seq<char>) -> ReplySpec<R> {
    ReplySpec::Failure { status: INTERNAL_SERVER_ERROR, body: failure_text(hop, details) }
}

/// The next phase and step of an exchange in flight, given the outcome
/// of the call it is waiting for: a response, or the error's text.
pub open spec fn next<R>(urls: UrlsSpec, phase: Phase, outcome: Result<R, Seq<char>>) -> (Phase, ActionSpec<R>) {
    match (phase, outcome) {
        (Phase::AwaitingFirst, Ok(_)) => (Phase::AwaitingSecond, ActionSpec::Send(get_to(urls.url_2))),
        (Phase::AwaitingFirst, Err(e)) => (Phase::Finished, ActionSpec::Respond(failure_reply(Hop::First, e))),
        // Any other phase is taken as waiting for the second call.
        (_, Ok(r)) => (Phase::Finished, ActionSpec::Respond(ReplySpec::Forward(r))),
        (_, Err(e)) => (Phase::Finished, ActionSpec::Respond(failure_reply(Hop::Second, e))),
    }
}

/// The view of an outcome whose error is a `String`.
pub open spec fn outcome_view<R>(outcome: Result<R, String>) -> Result<R, Seq<char>> {
    match outcome {
        Ok(r) => Ok(r),
        Err(e) => Err(e@),
    }
}

/// Builds the plain-text body of the error reply for a failed call.
pub fn failure_body(hop: Hop, details: &str) -> (r: String)
    ensures
        r@ == failure_text(hop, details@),
{
    let mut body = match hop {
        Hop::First => String::from_str("Error making request 1\n"),
        Hop::Second => String::from_str("Error making request 2\n"),
    };
    body.append(details);
    body
}

/// The handling of one inbound request.
#[derive(Debug)]
pub struct Exchange {
    pub urls: ExternalUrls,
    pub phase: Phase,
}

impl Exchange {
    /// A new exchange over the given upstreams; nothing is sent yet.
    pub fn new(urls: ExternalUrls) -> (r: Exchange)
        ensures
            r.urls@ == urls@,
            r.phase == Phase::Ready,
    {
        Exchange { urls, phase: Phase::Ready }
    }

    /// Starts the exchange: the GET to the first upstream.
    pub fn begin(&mut self) -> (r: OutboundGet)
        requires
            old(self).phase == Phase::Ready,
        ensures
            r@ == get_to(old(self).urls@.url_1),
            final(self).phase == Phase::AwaitingFirst,
            final(self).urls@ == old(self).urls@,
    {
        self.phase = Phase::AwaitingFirst;
        OutboundGet { url: self.urls.url_1.clone(), body: String::from_str(OUTBOUND_BODY) }
    }

    /// Takes the outcome of the call in flight (the response, or the text
    /// of the error) and says what to do next.
    pub fn on_outcome<R>(&mut self, outcome: Result<R, String>) -> (r: Action<R>)
        requires
            old(self).phase == Phase::AwaitingFirst || old(self).phase == Phase::AwaitingSecond,
        ensures
            (final(self).phase, r@) == next(old(self).urls@, old(self).phase, outcome_view(outcome)),
            final(self).urls@ == old(self).urls@,
    {
        match outcome {
            Ok(response) => {
                if self.phase == Phase::AwaitingFirst {
                    self.phase = Phase::AwaitingSecond;
                    Action::Send(OutboundGet { url: self.urls.url_2.clone(), body: String::from_str(OUTBOUND_BODY) })
                } else {
                    self.phase = Phase::Finished;
                    Action::Respond(Reply::Forward(response))
                }
            },
            Err(details) => {
                let hop = if self.phase == Phase::AwaitingFirst { Hop::First } else { Hop::Second };
                self.phase = Phase::Finished;
                Action::Respond(Reply::Failure(ErrorReply {
                    status: INTERNAL_SERVER_ERROR,
                    body: failure_body(hop, details.as_str()),
                }))
            },
        }
    }
}

/// The steps a driver sees when it follows an exchange from `begin`,
/// given the outcomes of the first and, if it is made, the second call.
pub open spec fn run<R>(urls: UrlsSpec, first: Result<R, Seq<char>>, second: Result<R, Seq<char>>) -> Seq<ActionSpec<R>> {
    let (phase, after_first) = next(urls, Phase::AwaitingFirst, first);
    if phase == Phase::AwaitingSecond {
        seq![ActionSpec::Send(get_to(urls.url_1)), after_first, next(urls, phase, second).1]
    } else {
        seq![ActionSpec::Send(get_to(urls.url_1)), after_first]
    }
}

/// When both upstreams answer, the relay calls the first and then the
/// second upstream, and hands the caller exactly the second response,
/// whatever the first response was.
pub proof fn lemma_second_response_forwarded<R>(urls: UrlsSpec, first: R, second: R)
    ensures
        run(urls, Ok(first), Ok(second)) == seq![
            ActionSpec::Send(get_to(urls.url_1)),
            ActionSpec::Send(get_to(urls.url_2)),
            ActionSpec::<R>::Respond(ReplySpec::Forward(second)),
        ],
{
}

/// When the first call fails, the second upstream is never contacted and
/// the caller gets a 500 whose body names the first request's error.
pub proof fn lemma_first_failure_answers_at_once<R>(urls: UrlsSpec, details: Seq<char>, second: Result<R, Seq<char>>)
    ensures
        run(urls, Err(details), second) == seq![
            ActionSpec::Send(get_to(urls.url_1)),
            ActionSpec::<R>::Respond(failure_reply(Hop::First, details)),
        ],
        "Error making request 1"@.is_prefix_of(failure_text(Hop::First, details)),
{
    reveal_strlit("Error making request 1");
    reveal_strlit("Error making request 1\n");
    assert("Error making request 1"@.is_prefix_of(failure_text(Hop::First, details)));
}

/// When the first call succeeds and the second fails, the caller gets a
/// 500 whose body names the second request's error.
pub proof fn lemma_second_failure_reported<R>(urls: UrlsSpec, first: R, details: Seq<char>)
    ensures
        run(urls, Ok(first), Err(details)) == seq![
            ActionSpec::Send(get_to(urls.url_1)),
            ActionSpec::Send(get_to(urls.url_2)),
            ActionSpec::<R>::Respond(failure_reply(Hop::Second, details)),
        ],
        "Error making request 2"@.is_prefix_of(failure_text(Hop::Second, details)),
{
    reveal_strlit("Error making request 2");
    reveal_strlit("Error making request 2\n");
    assert("Error making request 2"@.is_prefix_of(failure_text(Hop::Second, details)));
}

} // verus!
