//! One logical request, from the first send to its outcome.
//!
//! Sending, sleeping and reading a body are the caller's work. What is
//! decided here is what to do next: a rate-limited answer is retried after
//! the delay that the backoff policy grants, until the policy grants none;
//! every other failure is final at once.

use crate::oauth::AccessToken;
use crate::text::{string_from_utf8, truncate, truncated};
use core::time::Duration;
use vstd::prelude::*;
use vstd::utf8::*;

verus! {

/// The status of a rate-limited answer.
pub const TOO_MANY_REQUESTS: u16 = 429;

/// The number of characters of a failed answer's body that an error keeps.
pub const ERROR_TEXT_LIMIT: usize = 4096;

/// Whether a status reports success.
pub open spec fn is_success(status: u16) -> bool {
    200 <= status < 300
}

/// The method of a request.
#[derive(Debug, PartialEq, Eq, Clone, Copy, Structural)]
pub enum Method {
    Get,
    Post,
}

/// A request, described: where it goes and what it carries.
pub struct Request<'a> {
    pub base_url: &'a str,
    pub path: Vec<&'a str>,
    pub method: Method,
    pub form: Option<Vec<(&'a str, &'a str)>>,
    pub query: Option<Vec<(&'a str, &'a str)>>,
    pub access_token: Option<AccessToken>,
}

impl<'a> Request<'a> {
    /// The request with `method` in place of its method.
    pub fn method(self, method: Method) -> (r: Request<'a>)
        ensures
            r == (Request { method, ..self }),
    {
        Request { method, ..self }
    }

    /// The request with `form` as its form-encoded body.
    pub fn form(self, form: Vec<(&'a str, &'a str)>) -> (r: Request<'a>)
        ensures
            r == (Request { form: Some(form), ..self }),
    {
        Request { form: Some(form), ..self }
    }

    /// The request with `query` as its query parameters.
    pub fn query(self, query: Vec<(&'a str, &'a str)>) -> (r: Request<'a>)
        ensures
            r == (Request { query: Some(query), ..self }),
    {
        Request { query: Some(query), ..self }
    }

    /// The request with `query` as its query parameters, if there are any.
    pub fn maybe_query(self, query: Option<Vec<(&'a str, &'a str)>>) -> (r: Request<'a>)
        ensures
            r == (Request { query, ..self }),
    {
        Request { query, ..self }
    }

    /// The request with `token` as its bearer token.
    pub fn access_token(self, token: AccessToken) -> (r: Request<'a>)
        ensures
            r == (Request { access_token: Some(token), ..self }),
    {
        Request { access_token: Some(token), ..self }
    }
}

/// A client for one service, known by its base address.
pub struct GenericClient {
    pub base_url: String,
}

impl Clone for GenericClient {
    fn clone(&self) -> (r: Self)
        ensures
            r == *self,
    {
        GenericClient { base_url: self.base_url.clone() }
    }
}

impl GenericClient {
    /// A client for the service at `base_url`.
    pub fn new(base_url: String) -> (client: GenericClient)
        ensures
            client.base_url == base_url,
    {
        GenericClient { base_url }
    }

    /// A client for the service at `base_url`.
    pub fn with_base_url(&self, base_url: String) -> (client: GenericClient)
        ensures
            client.base_url == base_url,
    {
        GenericClient { base_url }
    }

    /// A request for the resource at `path` below the base address: a plain
    /// `GET` that carries nothing.
    pub fn request<'a>(&'a self, path: Vec<&'a str>) -> (r: Request<'a>)
        ensures
            r.base_url@ == self.base_url@,
            r.path == path,
            r.method == Method::Get,
            r.form is None,
            r.query is None,
            r.access_token is None,
    {
        Request {
            base_url: self.base_url.as_str(),
            path,
            method: Method::Get,
            form: None,
            query: None,
            access_token: None,
        }
    }
}

/// Why a request failed.
#[derive(Debug)]
pub enum RequestError {
    /// The request could not be sent or its answer could not be read. The
    /// text says why.
    Transport(String),
    /// The service kept answering that the rate limit is exceeded until the
    /// backoff policy granted no further delay. The text is the body of its
    /// last answer.
    RateLimited(String),
    /// The service answered with a failure status, and the body could not
    /// be read.
    Status { status: u16 },
    /// The service answered with a failure status, and the body is no text.
    StatusBinary { status: u16, payload: Vec<u8> },
    /// The service answered with a failure status, and the body is no
    /// structured error. The text is the start of the body.
    StatusText { status: u16, text: String },
    /// The service answered with a failure status and a structured error.
    /// The text is the error's detail.
    Remote { status: u16, detail: String },
    /// The service answered with success, and the body could not be read.
    EmptyBody(String),
    /// The service answered with success, and the body is no text.
    BodyNotText(Vec<u8>),
    /// The service answered with success, and the body is not of the shape
    /// that was asked for. The error carries the body and the decoder's
    /// objection.
    UnexpectedPayload { text: String, reason: String },
    /// The caller reported something that was not awaited.
    OutOfOrder,
}

/// A failure, with its texts and bytes as sequences.
pub enum RequestErrorView {
    Transport(Seq<char>),
    RateLimited(Seq<char>),
    Status { status: u16 },
    StatusBinary { status: u16, payload: Seq<u8> },
    StatusText { status: u16, text: Seq<char> },
    Remote { status: u16, detail: Seq<char> },
    EmptyBody(Seq<char>),
    BodyNotText(Seq<u8>),
    UnexpectedPayload { text: Seq<char>, reason: Seq<char> },
    OutOfOrder,
}

impl View for RequestError {
    type V = RequestErrorView;

    open spec fn view(&self) -> RequestErrorView {
        match *self {
            RequestError::Transport(m) => RequestErrorView::Transport(m@),
            RequestError::RateLimited(t) => RequestErrorView::RateLimited(t@),
            RequestError::Status { status } => RequestErrorView::Status { status },
            RequestError::StatusBinary { status, payload } => RequestErrorView::StatusBinary {
                status,
                payload: payload@,
            },
            RequestError::StatusText { status, text } => RequestErrorView::StatusText {
                status,
                text: text@,
            },
            RequestError::Remote { status, detail } => RequestErrorView::Remote {
                status,
                detail: detail@,
            },
            RequestError::EmptyBody(m) => RequestErrorView::EmptyBody(m@),
            RequestError::BodyNotText(b) => RequestErrorView::BodyNotText(b@),
            RequestError::UnexpectedPayload { text, reason } => RequestErrorView::UnexpectedPayload {
                text: text@,
                reason: reason@,
            },
            RequestError::OutOfOrder => RequestErrorView::OutOfOrder,
        }
    }
}

/// How far a request has come.
pub enum Phase {
    /// Nothing has been sent.
    Idle,
    /// The request is on its way.
    AwaitingResponse,
    /// The answer was rate-limited; its body is being read.
    AwaitingRetryText,
    /// The answer was a failure; its body is being read.
    AwaitingFailureBody { status: u16 },
    /// The answer was a failure with a text body; the caller tries to read a
    /// structured error out of it.
    AwaitingRemoteError { status: u16, text: String },
    /// The answer was a success; its body is being read.
    AwaitingBody,
    /// The answer was a success with a text body; the caller tries to read
    /// the payload out of it.
    AwaitingPayload { text: String },
    /// The outcome has been told.
    Finished,
}

/// How far a request has come, with its texts as sequences.
pub enum PhaseView {
    Idle,
    AwaitingResponse,
    AwaitingRetryText,
    AwaitingFailureBody { status: u16 },
    AwaitingRemoteError { status: u16, text: Seq<char> },
    AwaitingBody,
    AwaitingPayload { text: Seq<char> },
    Finished,
}

impl View for Phase {
    type V = PhaseView;

    open spec fn view(&self) -> PhaseView {
        match *self {
            Phase::Idle => PhaseView::Idle,
            Phase::AwaitingResponse => PhaseView::AwaitingResponse,
            Phase::AwaitingRetryText => PhaseView::AwaitingRetryText,
            Phase::AwaitingFailureBody { status } => PhaseView::AwaitingFailureBody { status },
            Phase::AwaitingRemoteError { status, text } => PhaseView::AwaitingRemoteError {
                status,
                text: text@,
            },
            Phase::AwaitingBody => PhaseView::AwaitingBody,
            Phase::AwaitingPayload { text } => PhaseView::AwaitingPayload { text: text@ },
            Phase::Finished => PhaseView::Finished,
        }
    }
}

/// What the caller reports.
pub enum Event {
    /// The caller is ready to send.
    Start,
    /// The request could not be sent, or no answer came.
    TransportFailed(String),
    /// An answer came with this status.
    Responded(u16),
    /// The body of a rate-limited answer was read as text, or could not be.
    RetryText(Result<String, String>),
    /// A body was read, or could not be.
    Body(Result<Vec<u8>, String>),
    /// A structured error was read out of the body of a failure, or none
    /// could be. The text is the error's detail.
    RemoteError(Option<String>),
    /// The payload was read out of the body of a success, or could not be.
    /// The text is the decoder's objection.
    Payload(Result<(), String>),
}

/// What the caller reports, with texts and bytes as sequences.
pub enum EventView {
    Start,
    TransportFailed(Seq<char>),
    Responded(u16),
    RetryText(Result<Seq<char>, Seq<char>>),
    Body(Result<Seq<u8>, Seq<char>>),
    RemoteError(Option<Seq<char>>),
    Payload(Result<(), Seq<char>>),
}

impl View for Event {
    type V = EventView;

    open spec fn view(&self) -> EventView {
        match *self {
            Event::Start => EventView::Start,
            Event::TransportFailed(m) => EventView::TransportFailed(m@),
            Event::Responded(status) => EventView::Responded(status),
            Event::RetryText(r) => EventView::RetryText(
                match r {
                    Ok(t) => Ok(t@),
                    Err(m) => Err(m@),
                },
            ),
            Event::Body(r) => EventView::Body(
                match r {
                    Ok(b) => Ok(b@),
                    Err(m) => Err(m@),
                },
            ),
            Event::RemoteError(d) => EventView::RemoteError(
                match d {
                    Some(t) => Some(t@),
                    None => None,
                },
            ),
            Event::Payload(r) => EventView::Payload(
                match r {
                    Ok(_) => Ok(()),
                    Err(m) => Err(m@),
                },
            ),
        }
    }
}

/// What the caller has to do next.
pub enum Action {
    /// Record the request in the trace and send it.
    Send,
    /// Wait this long, then record the request in the trace and send it
    /// again.
    SendAfter(Duration),
    /// Read the body of the rate-limited answer as text.
    ReadRetryText,
    /// Read the body of the answer.
    ReadBody,
    /// Try to read a structured error out of the text that the phase holds.
    DecodeRemoteError,
    /// Try to read the payload out of the text that the phase holds.
    DecodePayload,
    /// Hand the payload to whoever asked.
    Succeed,
    /// Hand this failure to whoever asked.
    Fail(RequestError),
}

/// What the caller has to do next, with texts and bytes as sequences.
pub enum ActionView {
    Send,
    SendAfter(Duration),
    ReadRetryText,
    ReadBody,
    DecodeRemoteError,
    DecodePayload,
    Succeed,
    Fail(RequestErrorView),
}

impl View for Action {
    type V = ActionView;

    open spec fn view(&self) -> ActionView {
        match *self {
            Action::Send => ActionView::Send,
            Action::SendAfter(d) => ActionView::SendAfter(d),
            Action::ReadRetryText => ActionView::ReadRetryText,
            Action::ReadBody => ActionView::ReadBody,
            Action::DecodeRemoteError => ActionView::DecodeRemoteError,
            Action::DecodePayload => ActionView::DecodePayload,
            Action::Succeed => ActionView::Succeed,
            Action::Fail(e) => ActionView::Fail(e@),
        }
    }
}

/// The failure that the body of a rate-limited answer stands for: the body,
/// or the reason why it could not be read.
pub open spec fn rate_limit_failure(text: Result<Seq<char>, Seq<char>>) -> RequestErrorView {
    match text {
        Ok(t) => RequestErrorView::RateLimited(t),
        Err(m) => RequestErrorView::Transport(m),
    }
}

/// The phase and the action that follow from a phase and an event. `delay`
/// is what the backoff policy granted; it counts only where a rate-limited
/// answer has just been read.
pub open spec fn transition(phase: PhaseView, event: EventView, delay: Option<Duration>) -> (
    PhaseView,
    ActionView,
) {
    match (phase, event) {
        (PhaseView::Idle, EventView::Start) => (PhaseView::AwaitingResponse, ActionView::Send),
        (PhaseView::AwaitingResponse, EventView::TransportFailed(m)) => (
            PhaseView::Finished,
            ActionView::Fail(RequestErrorView::Transport(m)),
        ),
        (PhaseView::AwaitingResponse, EventView::Responded(status)) => if status
            == TOO_MANY_REQUESTS {
            (PhaseView::AwaitingRetryText, ActionView::ReadRetryText)
        } else if is_success(status) {
            (PhaseView::AwaitingBody, ActionView::ReadBody)
        } else {
            (PhaseView::AwaitingFailureBody { status }, ActionView::ReadBody)
        },
        (PhaseView::AwaitingRetryText, EventView::RetryText(text)) => match delay {
            Some(d) => (PhaseView::AwaitingResponse, ActionView::SendAfter(d)),
            None => (PhaseView::Finished, ActionView::Fail(rate_limit_failure(text))),
        },
        (PhaseView::AwaitingFailureBody { status }, EventView::Body(body)) => match body {
            Err(_) => (PhaseView::Finished, ActionView::Fail(RequestErrorView::Status { status })),
            Ok(bytes) => if valid_utf8(bytes) {
                (
                    PhaseView::AwaitingRemoteError { status, text: decode_utf8(bytes) },
                    ActionView::DecodeRemoteError,
                )
            } else {
                (
                    PhaseView::Finished,
                    ActionView::Fail(RequestErrorView::StatusBinary { status, payload: bytes }),
                )
            },
        },
        (PhaseView::AwaitingRemoteError { status, text }, EventView::RemoteError(detail)) => (
            PhaseView::Finished,
            ActionView::Fail(
                match detail {
                    Some(d) => RequestErrorView::Remote { status, detail: d },
                    None => RequestErrorView::StatusText {
                        status,
                        text: truncated(text, ERROR_TEXT_LIMIT as nat),
                    },
                },
            ),
        ),
        (PhaseView::AwaitingBody, EventView::Body(body)) => match body {
            Err(m) => (PhaseView::Finished, ActionView::Fail(RequestErrorView::EmptyBody(m))),
            Ok(bytes) => if valid_utf8(bytes) {
                (PhaseView::AwaitingPayload { text: decode_utf8(bytes) }, ActionView::DecodePayload)
            } else {
                (PhaseView::Finished, ActionView::Fail(RequestErrorView::BodyNotText(bytes)))
            },
        },
        (PhaseView::AwaitingPayload { text }, EventView::Payload(decoded)) => (
            PhaseView::Finished,
            match decoded {
                Ok(_) => ActionView::Succeed,
                Err(reason) => ActionView::Fail(
                    RequestErrorView::UnexpectedPayload { text, reason },
                ),
            },
        ),
        _ => (PhaseView::Finished, ActionView::Fail(RequestErrorView::OutOfOrder)),
    }
}

/// Whether the backoff policy is asked for a delay: only where the body of
/// a rate-limited answer has just been read.
pub open spec fn asks_policy(phase: PhaseView, event: EventView) -> bool {
    phase is AwaitingRetryText && event is RetryText
}

/// What follows from a phase and an event, given what the backoff policy
/// granted.
pub fn decide(phase: Phase, event: Event, delay: Option<Duration>) -> (next: (Phase, Action))
    ensures
        (next.0@, next.1@) == transition(phase@, event@, delay),
{
    match (phase, event) {
        (Phase::Idle, Event::Start) => (Phase::AwaitingResponse, Action::Send),
        (Phase::AwaitingResponse, Event::TransportFailed(m)) => (
            Phase::Finished,
            Action::Fail(RequestError::Transport(m)),
        ),
        (Phase::AwaitingResponse, Event::Responded(status)) => {
            if status == TOO_MANY_REQUESTS {
                (Phase::AwaitingRetryText, Action::ReadRetryText)
            } else if 200 <= status && status < 300 {
                (Phase::AwaitingBody, Action::ReadBody)
            } else {
                (Phase::AwaitingFailureBody { status }, Action::ReadBody)
            }
        },
        (Phase::AwaitingRetryText, Event::RetryText(text)) => match delay {
            Some(d) => (Phase::AwaitingResponse, Action::SendAfter(d)),
            None => match text {
                Ok(t) => (Phase::Finished, Action::Fail(RequestError::RateLimited(t))),
                Err(m) => (Phase::Finished, Action::Fail(RequestError::Transport(m))),
            },
        },
        (Phase::AwaitingFailureBody { status }, Event::Body(body)) => match body {
            Err(_) => (Phase::Finished, Action::Fail(RequestError::Status { status })),
            Ok(bytes) => match string_from_utf8(bytes) {
                Ok(text) => (
                    Phase::AwaitingRemoteError { status, text },
                    Action::DecodeRemoteError,
                ),
                Err(payload) => (
                    Phase::Finished,
                    Action::Fail(RequestError::StatusBinary { status, payload }),
                ),
            },
        },
        (Phase::AwaitingRemoteError { status, text }, Event::RemoteError(detail)) => match detail {
            Some(d) => (Phase::Finished, Action::Fail(RequestError::Remote { status, detail: d })),
            None => (
                Phase::Finished,
                Action::Fail(
                    RequestError::StatusText { status, text: truncate(text, ERROR_TEXT_LIMIT) },
                ),
            ),
        },
        (Phase::AwaitingBody, Event::Body(body)) => match body {
            Err(m) => (Phase::Finished, Action::Fail(RequestError::EmptyBody(m))),
            Ok(bytes) => match string_from_utf8(bytes) {
                Ok(text) => (Phase::AwaitingPayload { text }, Action::DecodePayload),
                Err(payload) => (Phase::Finished, Action::Fail(RequestError::BodyNotText(payload))),
            },
        },
        (Phase::AwaitingPayload { text }, Event::Payload(decoded)) => match decoded {
            Ok(_) => (Phase::Finished, Action::Succeed),
            Err(reason) => (
                Phase::Finished,
                Action::Fail(RequestError::UnexpectedPayload { text, reason }),
            ),
        },
        _ => (Phase::Finished, Action::Fail(RequestError::OutOfOrder)),
    }
}

/// The clock of the backoff policy. Nothing of it is read here.
#[verifier::external_type_specification]
#[verifier::external_body]
pub struct ExSystemClock(backoff::SystemClock);

/// The backoff policy. Nothing of it is read here.
#[verifier::external_type_specification]
#[verifier::external_body]
#[verifier::reject_recursive_types(C)]
pub struct ExExponentialBackoff<C>(backoff::exponential::ExponentialBackoff<C>);

/// `backoff::ExponentialBackoff::default`: the policy with the crate's
/// default intervals and budget, its clock started now.
#[verifier::external_body]
fn default_policy() -> (policy: backoff::ExponentialBackoff) {
    backoff::ExponentialBackoff::default()
}

/// `backoff::backoff::Backoff::next_backoff`: the delay before the next
/// attempt, or `None` once the policy's budget of elapsed time is used up.
/// The answer depends on the clock and on chance; nothing is claimed of it.
#[verifier::external_body]
fn next_delay(policy: &mut backoff::ExponentialBackoff) -> (delay: Option<Duration>) {
    backoff::backoff::Backoff::next_backoff(policy)
}

/// One request in progress: its phase, and the backoff policy that rations
/// its retries.
pub struct RequestExecutor {
    policy: backoff::ExponentialBackoff,
    phase: Phase,
}

impl RequestExecutor {
    /// The phase of the request.
    pub closed spec fn spec_phase(self) -> Phase {
        self.phase
    }

    /// An executor for a request of which nothing has been sent, with a
    /// fresh backoff policy.
    pub fn new() -> (executor: RequestExecutor)
        ensures
            executor.spec_phase()@ == PhaseView::Idle,
    {
        RequestExecutor { policy: default_policy(), phase: Phase::Idle }
    }

    /// The phase of the request.
    pub fn phase(&self) -> (phase: &Phase)
        ensures
            *phase == self.spec_phase(),
    {
        &self.phase
    }

    /// The text that the caller is asked to decode, where the phase holds
    /// one.
    pub fn text(&self) -> (text: Option<&str>)
        ensures
            match self.spec_phase()@ {
                PhaseView::AwaitingRemoteError { status, text: held } => text matches Some(t)
                    && t@ == held,
                PhaseView::AwaitingPayload { text: held } => text matches Some(t) && t@ == held,
                _ => text is None,
            },
    {
        match &self.phase {
            Phase::AwaitingRemoteError { status, text } => Some(text.as_str()),
            Phase::AwaitingPayload { text } => Some(text.as_str()),
            _ => None,
        }
    }

    /// Takes the caller's report and says what to do next. Where a
    /// rate-limited answer has just been read, the backoff policy is asked
    /// for a delay, and what follows is what `transition` makes of its
    /// answer, whatever that is; everywhere else the policy is left alone.
    pub fn advance(self, event: Event) -> (next: (RequestExecutor, Action))
        ensures
            !asks_policy(self.spec_phase()@, event@) ==> (next.0.spec_phase()@, next.1@)
                == transition(self.spec_phase()@, event@, None),
            asks_policy(self.spec_phase()@, event@) ==> {
                ||| (next.0.spec_phase()@, next.1@) == transition(
                    self.spec_phase()@,
                    event@,
                    None,
                )
                ||| exists|d: Duration|
                    (next.0.spec_phase()@, next.1@) == #[trigger] transition(
                        self.spec_phase()@,
                        event@,
                        Some(d),
                    )
            },
    {
        let mut policy = self.policy;
        let phase = self.phase;
        let asks = match (&phase, &event) {
            (Phase::AwaitingRetryText, Event::RetryText(_)) => true,
            _ => false,
        };
        let delay = if asks {
            next_delay(&mut policy)
        } else {
            None
        };
        let ghost before = phase@;
        let ghost reported = event@;
        let (phase, action) = decide(phase, event, delay);
        proof {
            if let Some(d) = delay {
                assert((phase@, action@) == transition(before, reported, Some(d)));
            }
        }
        (RequestExecutor { policy, phase }, action)
    }
}

/// A failure that is not a rate limit ends the request at once: whatever the
/// backoff policy would grant, it is not asked and changes nothing.
pub proof fn lemma_only_rate_limits_are_retried(
    phase: PhaseView,
    event: EventView,
    a: Option<Duration>,
    b: Option<Duration>,
)
    requires
        !asks_policy(phase, event),
    ensures
        transition(phase, event, a) == transition(phase, event, b),
        !(transition(phase, event, a).1 is SendAfter),
{
}

/// Success is told only for an answer with a success status whose body is
/// text and decodes: each step towards it has one way in.
pub proof fn lemma_success_needs_a_decoded_success(
    phase: PhaseView,
    event: EventView,
    delay: Option<Duration>,
)
    ensures
        transition(phase, event, delay).1 is Succeed ==> phase is AwaitingPayload && (
        event matches EventView::Payload(Ok(_))),
        transition(phase, event, delay).0 is AwaitingPayload ==> phase is AwaitingBody && (
        event matches EventView::Body(Ok(bytes)) && valid_utf8(bytes)),
        transition(phase, event, delay).0 is AwaitingBody ==> phase is AwaitingResponse && (
        event matches EventView::Responded(status) && is_success(status)),
{
}

/// Once the outcome has been told, nothing is sent any more.
pub proof fn lemma_finished_stays_finished(event: EventView, delay: Option<Duration>)
    ensures
        transition(PhaseView::Finished, event, delay) == (
            PhaseView::Finished,
            ActionView::Fail(RequestErrorView::OutOfOrder),
        ),
{
}

/// What a request comes to against a service that answers every send with
/// the rate-limit status: `texts` are the bodies of its answers in turn and
/// `delays` what the backoff policy grants after each. The result is the
/// number of sends and the action that ends the run, `None` where the
/// answers run out first.
pub open spec fn rate_limited_run(
    texts: Seq<Seq<char>>,
    delays: Seq<Option<Duration>>,
    sent: nat,
) -> (nat, Option<ActionView>)
    decreases texts.len(),
{
    if texts.len() == 0 || delays.len() == 0 {
        (sent, None)
    } else {
        let answered = transition(
            PhaseView::AwaitingResponse,
            EventView::Responded(TOO_MANY_REQUESTS),
            None,
        );
        let read = transition(answered.0, EventView::RetryText(Ok(texts[0])), delays[0]);
        if read.0 is Finished {
            (sent, Some(read.1))
        } else {
            rate_limited_run(texts.drop_first(), delays.drop_first(), sent + 1)
        }
    }
}

/// Against a service that always answers with the rate-limit status, the
/// request does not go on for ever: as soon as the backoff policy grants no
/// further delay, after the sends that it did grant a delay for, the request
/// fails, and the failure carries the body of the last answer.
pub proof fn lemma_backoff_terminates(
    texts: Seq<Seq<char>>,
    delays: Seq<Option<Duration>>,
    sent: nat,
)
    requires
        texts.len() == delays.len(),
        delays.len() > 0,
        forall|i: int| 0 <= i < delays.len() - 1 ==> (#[trigger] delays[i]) is Some,
        delays.last() is None,
    ensures
        rate_limited_run(texts, delays, sent) == (
            (sent + delays.len() - 1) as nat,
            Some(ActionView::Fail(RequestErrorView::RateLimited(texts.last()))),
        ),
    decreases texts.len(),
{
    if delays.len() == 1 {
        assert(delays[0] == delays.last());
        assert(texts[0] == texts.last());
    } else {
        assert(delays[0] is Some);
        let rest_texts = texts.drop_first();
        let rest_delays = delays.drop_first();
        assert forall|i: int| 0 <= i < rest_delays.len() - 1 implies (
        #[trigger] rest_delays[i]) is Some by {
            assert(rest_delays[i] == delays[i + 1]);
        }
        assert(rest_delays.last() == delays.last());
        assert(rest_texts.last() == texts.last());
        lemma_backoff_terminates(rest_texts, rest_delays, sent + 1);
    }
}

} // verus!
