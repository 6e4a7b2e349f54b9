//! One logical request, carried through transport failures and rate limits.
//!
//! The executor decides; its caller acts. The caller asks for the action that
//! the current state calls for, performs it (sends the request, or sleeps),
//! and reports what happened as an event. Two kinds of trouble are survived.
//! A transport failure is followed by a short fixed wait and then by a new
//! attempt, up to `MAX_ATTEMPTS` attempts in all; after the wait that follows
//! the last of them the request is given up. A rate limit is waited out for as
//! long as the server asks, any number of times, and does not count as an
//! attempt. Everything else ends the request at once.

use vstd::prelude::*;
use vstd::string::*;
use crate::text::{parse_seconds, text_of, whole_seconds};

verus! {

/// How many times a request is sent before transport failures end it.
pub const MAX_ATTEMPTS: u32 = 3;

/// Seconds to wait after a transport failure.
pub const RETRY_DELAY_SECS: u64 = 1;

/// The status by which a server says that it limits the rate of requests.
pub const TOO_MANY_REQUESTS: u16 = 429;

/// The name of the header that carries the credential.
pub const AUTHORIZATION: &'static str = "Authorization";

/// The method of a request.
#[derive(Clone, Copy, Debug, PartialEq, Eq, Structural)]
pub enum Method {
    Get,
}

/// One header of a request.
#[derive(Clone, Debug, PartialEq, Eq)]
pub struct Header {
    pub name: String,
    pub value: String,
}

/// A request as it is sent, and sent again unchanged on every new attempt.
#[derive(Clone, Debug, PartialEq, Eq)]
pub struct RequestDescriptor {
    pub method: Method,
    pub url: String,
    pub headers: Vec<Header>,
}

/// A header as the texts of its name and its value.
pub struct HeaderView {
    pub name: Seq<char>,
    pub value: Seq<char>,
}

/// A request as the rules see it.
pub struct RequestView {
    pub method: Method,
    pub url: Seq<char>,
    pub headers: Seq<HeaderView>,
}

impl View for Header {
    type V = HeaderView;

    open spec fn view(&self) -> HeaderView {
        HeaderView { name: self.name@, value: self.value@ }
    }
}

impl View for RequestDescriptor {
    type V = RequestView;

    open spec fn view(&self) -> RequestView {
        RequestView {
            method: self.method,
            url: self.url@,
            headers: self.headers@.map_values(|header: Header| header@),
        }
    }
}

/// The request that reads `url` and presents `credential`.
pub open spec fn authorized_get(url: Seq<char>, credential: Seq<char>) -> RequestView {
    RequestView {
        method: Method::Get,
        url,
        headers: seq![HeaderView { name: AUTHORIZATION@, value: credential }],
    }
}

/// Whether a character may stand in the value of a header: any but the
/// control characters, of which only the tab is let through.
pub open spec fn is_header_char(c: char) -> bool {
    c == '\t' || (' ' <= c && c != '\u{7f}')
}

/// Whether a text can be sent as the value of a header.
pub open spec fn is_header_text(text: Seq<char>) -> bool {
    forall|i: int| 0 <= i < text.len() ==> is_header_char(#[trigger] text[i])
}

/// `HeaderValue::from_str`, asked only whether it accepts the text. It goes
/// through the bytes of the text and refuses those below 32, but for the tab,
/// and 127. The bytes of a character outside ASCII are all above 127, so what
/// it refuses are the control characters of ASCII.
#[verifier::external_body]
pub(crate) fn header_value_accepts(text: &str) -> (accepted: bool)
    ensures
        accepted == is_header_text(text@),
{
    reqwest::header::HeaderValue::from_str(text).is_ok()
}

/// Why a credential is turned down.
#[derive(Clone, Copy, Debug, PartialEq, Eq, Structural)]
pub enum CredentialError {
    /// The credential holds a character that no header can carry.
    NotSendable,
}

impl RequestDescriptor {
    /// A `GET` of `url` whose only header presents `credential`, or an error
    /// where no header can carry the credential.
    pub fn get(url: String, credential: String) -> (request: Result<RequestDescriptor, CredentialError>)
        ensures
            match request {
                Ok(request) => is_header_text(credential@) && request@ == authorized_get(
                    url@,
                    credential@,
                ),
                Err(error) => !is_header_text(credential@) && error == CredentialError::NotSendable,
            },
    {
        if header_value_accepts(credential.as_str()) {
            Ok(RequestDescriptor::authorized(url, credential))
        } else {
            Err(CredentialError::NotSendable)
        }
    }

    pub(crate) fn authorized(url: String, credential: String) -> (request: RequestDescriptor)
        ensures
            request@ == authorized_get(url@, credential@),
    {
        let mut headers: Vec<Header> = Vec::new();
        headers.push(Header { name: String::from_str(AUTHORIZATION), value: credential });
        let request = RequestDescriptor { method: Method::Get, url, headers };
        assert(request@.headers =~= authorized_get(url@, credential@).headers);
        request
    }
}

/// Why a request was given up.
#[derive(Clone, Copy, Debug, PartialEq, Eq, Structural)]
pub enum FetchError {
    /// The transport failed on every one of the `MAX_ATTEMPTS` attempts.
    AttemptsExhausted,
    /// The server limited the rate without saying how long to wait.
    MissingRetryAfter,
    /// The server limited the rate, and its wait is no count of whole seconds.
    MalformedRetryAfter,
    /// The server answered with a status that is neither a success nor a rate limit.
    FatalStatus(u16),
    /// The server reported success, but its body could not be read as text.
    UnreadableBody,
}

/// A response as the transport hands it over: the status, the text of the
/// `Retry-After` header if the response has one, and the body if it could be
/// read as text.
#[derive(Clone, Debug, PartialEq, Eq)]
pub struct HttpResponse {
    pub status: u16,
    pub retry_after: Option<String>,
    pub body: Option<String>,
}

/// What a response amounts to, judged by its status and headers alone.
#[derive(Clone, Debug, PartialEq, Eq)]
pub enum ResponseOutcome {
    Success(String),
    RateLimited(u64),
    FatalStatus(u16),
}

/// A response as the rules see it.
pub struct ResponseView {
    pub status: u16,
    pub retry_after: Option<Seq<char>>,
    pub body: Option<Seq<char>>,
}

impl View for HttpResponse {
    type V = ResponseView;

    open spec fn view(&self) -> ResponseView {
        ResponseView {
            status: self.status,
            retry_after: text_of(self.retry_after),
            body: text_of(self.body),
        }
    }
}

/// An outcome, with the body as its text.
pub enum OutcomeView {
    Success(Seq<char>),
    RateLimited(u64),
    FatalStatus(u16),
}

impl View for ResponseOutcome {
    type V = OutcomeView;

    open spec fn view(&self) -> OutcomeView {
        match *self {
            ResponseOutcome::Success(body) => OutcomeView::Success(body@),
            ResponseOutcome::RateLimited(seconds) => OutcomeView::RateLimited(seconds),
            ResponseOutcome::FatalStatus(code) => OutcomeView::FatalStatus(code),
        }
    }
}

/// The view of a classification.
pub open spec fn classified(result: Result<ResponseOutcome, FetchError>) -> Result<OutcomeView, FetchError> {
    match result {
        Ok(outcome) => Ok(outcome@),
        Err(error) => Err(error),
    }
}

/// Whether `status` reports success.
pub open spec fn is_success(status: u16) -> bool {
    200 <= status <= 299
}

/// How a response is classified. A rate limit must say how many whole seconds
/// to wait; a success must come with a readable body; every other status is
/// fatal. The body plays no part in the choice.
pub open spec fn classify(response: ResponseView) -> Result<OutcomeView, FetchError> {
    if response.status == TOO_MANY_REQUESTS {
        match response.retry_after {
            None => Err(FetchError::MissingRetryAfter),
            Some(text) => match whole_seconds(text) {
                Some(seconds) => Ok(OutcomeView::RateLimited(seconds)),
                None => Err(FetchError::MalformedRetryAfter),
            },
        }
    } else if is_success(response.status) {
        match response.body {
            Some(body) => Ok(OutcomeView::Success(body)),
            None => Err(FetchError::UnreadableBody),
        }
    } else {
        Ok(OutcomeView::FatalStatus(response.status))
    }
}

/// Classifies a response.
pub fn classify_response(response: HttpResponse) -> (outcome: Result<ResponseOutcome, FetchError>)
    ensures
        classified(outcome) == classify(response@),
{
    if response.status == TOO_MANY_REQUESTS {
        match response.retry_after {
            None => Err(FetchError::MissingRetryAfter),
            Some(text) => match parse_seconds(text.as_str()) {
                Some(seconds) => Ok(ResponseOutcome::RateLimited(seconds)),
                None => Err(FetchError::MalformedRetryAfter),
            },
        }
    } else if 200 <= response.status && response.status <= 299 {
        match response.body {
            Some(body) => Ok(ResponseOutcome::Success(body)),
            None => Err(FetchError::UnreadableBody),
        }
    } else {
        Ok(ResponseOutcome::FatalStatus(response.status))
    }
}

/// Where a request stands.
#[derive(Clone, Debug, PartialEq, Eq)]
pub enum ExecutorState {
    /// The request is to be sent.
    Attempting,
    /// The transport failed; a short wait comes before anything else.
    TransientRetry,
    /// The server limited the rate; the wait it asked for comes before the
    /// request is sent again.
    RateLimitWait { seconds: u64 },
    /// The server answered with this body.
    Success { body: String },
    /// The request was given up.
    Fatal { error: FetchError },
}

/// A state, with the body as its text.
pub enum StateView {
    Attempting,
    TransientRetry,
    RateLimitWait { seconds: u64 },
    Success { body: Seq<char> },
    Fatal { error: FetchError },
}

impl View for ExecutorState {
    type V = StateView;

    open spec fn view(&self) -> StateView {
        match *self {
            ExecutorState::Attempting => StateView::Attempting,
            ExecutorState::TransientRetry => StateView::TransientRetry,
            ExecutorState::RateLimitWait { seconds } => StateView::RateLimitWait { seconds },
            ExecutorState::Success { body } => StateView::Success { body: body@ },
            ExecutorState::Fatal { error } => StateView::Fatal { error },
        }
    }
}

/// What the caller reports back.
#[derive(Clone, Debug, PartialEq, Eq)]
pub enum Event {
    /// The request was sent, and no response came back.
    TransportFailure,
    /// The request was sent, and this response came back.
    Response(HttpResponse),
    /// The wait is over.
    WaitElapsed,
}

/// An event as the rules see it.
pub enum EventView {
    TransportFailure,
    Response(ResponseView),
    WaitElapsed,
}

impl View for Event {
    type V = EventView;

    open spec fn view(&self) -> EventView {
        match *self {
            Event::TransportFailure => EventView::TransportFailure,
            Event::Response(response) => EventView::Response(response@),
            Event::WaitElapsed => EventView::WaitElapsed,
        }
    }
}

/// What the caller is to do next.
#[derive(Clone, Copy, Debug, PartialEq, Eq, Structural)]
pub enum Action {
    /// Send the request, and report a `TransportFailure` or a `Response`.
    Send,
    /// Sleep for this many seconds, and report `WaitElapsed`.
    Wait { seconds: u64 },
    /// Nothing more: the request succeeded.
    Deliver,
    /// Nothing more: the request was given up.
    Abort,
}

/// The action that a state calls for.
pub open spec fn action_of(state: StateView) -> Action {
    match state {
        StateView::Attempting => Action::Send,
        StateView::TransientRetry => Action::Wait { seconds: RETRY_DELAY_SECS },
        StateView::RateLimitWait { seconds } => Action::Wait { seconds },
        StateView::Success { .. } => Action::Deliver,
        StateView::Fatal { .. } => Action::Abort,
    }
}

/// Whether a state is final.
pub open spec fn is_terminal(state: StateView) -> bool {
    state is Success || state is Fatal
}

/// The state that a classified response leads to.
pub open spec fn state_after_response(outcome: Result<OutcomeView, FetchError>) -> StateView {
    match outcome {
        Ok(OutcomeView::Success(body)) => StateView::Success { body },
        Ok(OutcomeView::RateLimited(seconds)) => StateView::RateLimitWait { seconds },
        Ok(OutcomeView::FatalStatus(code)) => StateView::Fatal { error: FetchError::FatalStatus(code) },
        Err(error) => StateView::Fatal { error },
    }
}

/// An executor as the rules see it: the request, the state, and the number of
/// attempts that the transport has failed.
pub struct ExecutorView {
    pub request: RequestView,
    pub state: StateView,
    pub failures: nat,
}

impl ExecutorView {
    /// What holds of every executor: the transport has failed at most
    /// `MAX_ATTEMPTS` times, and fewer than that while the request is still
    /// to be sent.
    pub open spec fn within_budget(self) -> bool {
        &&& self.failures <= MAX_ATTEMPTS
        &&& self.state is Attempting ==> self.failures < MAX_ATTEMPTS
        &&& self.state is RateLimitWait ==> self.failures < MAX_ATTEMPTS
    }

    /// The executor of a request that has not been sent yet.
    pub open spec fn fresh(request: RequestView) -> ExecutorView {
        ExecutorView { request, state: StateView::Attempting, failures: 0 }
    }

    /// The executor after an event. An event that the state did not call for
    /// changes nothing.
    pub open spec fn after(self, event: EventView) -> ExecutorView {
        match (self.state, event) {
            (StateView::Attempting, EventView::TransportFailure) => ExecutorView {
                state: StateView::TransientRetry,
                failures: self.failures + 1,
                ..self
            },
            (StateView::Attempting, EventView::Response(response)) => ExecutorView {
                state: state_after_response(classify(response)),
                ..self
            },
            (StateView::TransientRetry, EventView::WaitElapsed) => ExecutorView {
                state: if self.failures < MAX_ATTEMPTS {
                    StateView::Attempting
                } else {
                    StateView::Fatal { error: FetchError::AttemptsExhausted }
                },
                ..self
            },
            (StateView::RateLimitWait { .. }, EventView::WaitElapsed) => ExecutorView {
                state: StateView::Attempting,
                ..self
            },
            _ => self,
        }
    }

}

/// The executor of one request.
pub struct RequestExecutor {
    request: RequestDescriptor,
    state: ExecutorState,
    failures: u32,
}

impl View for RequestExecutor {
    type V = ExecutorView;

    closed spec fn view(&self) -> ExecutorView {
        ExecutorView { request: self.request@, state: self.state@, failures: self.failures as nat }
    }
}

impl RequestExecutor {
    #[verifier::type_invariant]
    spec fn budget_kept(self) -> bool {
        self@.within_budget()
    }

    /// An executor for `request`, which is still to be sent.
    pub fn new(request: RequestDescriptor) -> (executor: RequestExecutor)
        ensures
            executor@ == ExecutorView::fresh(request@),
    {
        RequestExecutor { request, state: ExecutorState::Attempting, failures: 0 }
    }

    /// The request, the same on every attempt.
    pub fn request(&self) -> (request: &RequestDescriptor)
        ensures
            request@ == self@.request,
    {
        &self.request
    }

    /// The current state.
    pub fn state(&self) -> (state: &ExecutorState)
        ensures
            state@ == self@.state,
    {
        &self.state
    }

    /// How many attempts the transport has failed.
    pub fn failures(&self) -> (failures: u32)
        ensures
            failures == self@.failures,
            failures <= MAX_ATTEMPTS,
    {
        proof {
            use_type_invariant(self);
        }
        self.failures
    }

    /// What the caller is to do next.
    pub fn action(&self) -> (action: Action)
        ensures
            action == action_of(self@.state),
    {
        match self.state {
            ExecutorState::Attempting => Action::Send,
            ExecutorState::TransientRetry => Action::Wait { seconds: RETRY_DELAY_SECS },
            ExecutorState::RateLimitWait { seconds } => Action::Wait { seconds },
            ExecutorState::Success { .. } => Action::Deliver,
            ExecutorState::Fatal { .. } => Action::Abort,
        }
    }

    /// Takes note of what the caller reports.
    pub fn step(&mut self, event: Event)
        ensures
            final(self)@ == old(self)@.after(event@),
    {
        proof {
            use_type_invariant(&*self);
        }
        match event {
            Event::TransportFailure => {
                if self.is_attempting() {
                    self.state = ExecutorState::TransientRetry;
                    self.failures = self.failures + 1;
                }
            },
            Event::Response(response) => {
                if self.is_attempting() {
                    self.state = match classify_response(response) {
                        Ok(ResponseOutcome::Success(body)) => ExecutorState::Success { body },
                        Ok(ResponseOutcome::RateLimited(seconds)) => ExecutorState::RateLimitWait { seconds },
                        Ok(ResponseOutcome::FatalStatus(code)) => ExecutorState::Fatal {
                            error: FetchError::FatalStatus(code),
                        },
                        Err(error) => ExecutorState::Fatal { error },
                    };
                }
            },
            Event::WaitElapsed => {
                match self.state {
                    ExecutorState::TransientRetry => {
                        if self.failures < MAX_ATTEMPTS {
                            self.state = ExecutorState::Attempting;
                        } else {
                            self.state = ExecutorState::Fatal { error: FetchError::AttemptsExhausted };
                        }
                    },
                    ExecutorState::RateLimitWait { .. } => {
                        self.state = ExecutorState::Attempting;
                    },
                    _ => {},
                }
            },
        }
    }

    /// The outcome of a request that has come to its end: the body, or the
    /// reason for which the request was given up. `None` while the request is
    /// still under way.
    pub fn into_result(self) -> (result: Option<Result<String, FetchError>>)
        ensures
            match self@.state {
                StateView::Success { body } => result matches Some(Ok(text)) && text@ == body,
                StateView::Fatal { error } => result == Some(Err::<String, FetchError>(error)),
                _ => result is None,
            },
    {
        match self.state {
            ExecutorState::Success { body } => Some(Ok(body)),
            ExecutorState::Fatal { error } => Some(Err(error)),
            _ => None,
        }
    }

    fn is_attempting(&self) -> (attempting: bool)
        ensures
            attempting == (self@.state is Attempting),
    {
        match self.state {
            ExecutorState::Attempting => true,
            _ => false,
        }
    }
}

/// No event takes an executor over its budget of attempts.
pub proof fn lemma_budget_is_kept(executor: ExecutorView, event: EventView)
    requires
        executor.within_budget(),
    ensures
        executor.after(event).within_budget(),
{
}

/// The request is the same after any event.
pub proof fn lemma_request_is_kept(executor: ExecutorView, event: EventView)
    ensures
        executor.after(event).request == executor.request,
{
}

/// A request that has come to its end stays as it is.
pub proof fn lemma_terminal_state_is_final(executor: ExecutorView, event: EventView)
    requires
        is_terminal(executor.state),
    ensures
        executor.after(event) == executor,
{
}

/// Waiting out a rate limit costs no attempt: after the response that asks
/// for the wait and after the wait itself, the request is to be sent again,
/// and the count of failed attempts is what it was.
pub proof fn lemma_rate_limit_costs_no_attempt(executor: ExecutorView, response: ResponseView, seconds: u64)
    requires
        executor.state is Attempting,
        classify(response) == Ok::<OutcomeView, FetchError>(OutcomeView::RateLimited(seconds)),
    ensures
        action_of(executor.after(EventView::Response(response)).state) == (Action::Wait { seconds }),
        executor.after(EventView::Response(response)).after(EventView::WaitElapsed) == executor,
{
}

/// A transport failure is followed by the fixed wait; after the wait the
/// request is sent again if attempts are left, and given up if not.
pub proof fn lemma_transport_failure(executor: ExecutorView)
    requires
        executor.state is Attempting,
    ensures
        action_of(executor.after(EventView::TransportFailure).state) == (Action::Wait {
            seconds: RETRY_DELAY_SECS,
        }),
        executor.after(EventView::TransportFailure).after(EventView::WaitElapsed) == (ExecutorView {
            state: if executor.failures + 1 < MAX_ATTEMPTS {
                StateView::Attempting
            } else {
                StateView::Fatal { error: FetchError::AttemptsExhausted }
            },
            failures: executor.failures + 1,
            ..executor
        }),
{
}

/// A rate limit that does not say how long to wait ends the request at once.
pub proof fn lemma_rate_limit_without_wait(executor: ExecutorView, response: ResponseView)
    requires
        executor.state is Attempting,
        response.status == TOO_MANY_REQUESTS,
        response.retry_after is None,
    ensures
        executor.after(EventView::Response(response)).state == (StateView::Fatal {
            error: FetchError::MissingRetryAfter,
        }),
        action_of(executor.after(EventView::Response(response)).state) == Action::Abort,
{
}

/// A request whose transport fails on each of `MAX_ATTEMPTS` attempts, with
/// the wait after each, is given up after the last of them, and not before.
pub proof fn lemma_attempts_run_out(request: RequestView)
    ensures
        ({
            let first = ExecutorView::fresh(request).after(EventView::TransportFailure).after(
                EventView::WaitElapsed,
            );
            let second = first.after(EventView::TransportFailure).after(EventView::WaitElapsed);
            let third = second.after(EventView::TransportFailure);
            &&& first.state is Attempting
            &&& second.state is Attempting
            &&& third.state is TransientRetry
            &&& third.after(EventView::WaitElapsed).state == (StateView::Fatal {
                error: FetchError::AttemptsExhausted,
            })
        }),
{
}

/// A request whose transport fails on fewer than `MAX_ATTEMPTS` attempts and
/// then brings a successful response ends with the body of that response.
pub proof fn lemma_success_after_failures(request: RequestView, response: ResponseView, body: Seq<char>)
    requires
        classify(response) == Ok::<OutcomeView, FetchError>(OutcomeView::Success(body)),
    ensures
        ({
            let first = ExecutorView::fresh(request).after(EventView::TransportFailure).after(
                EventView::WaitElapsed,
            );
            let second = first.after(EventView::TransportFailure).after(EventView::WaitElapsed);
            &&& ExecutorView::fresh(request).after(EventView::Response(response)).state == (StateView::Success {
                body,
            })
            &&& first.after(EventView::Response(response)).state == (StateView::Success { body })
            &&& second.after(EventView::Response(response)).state == (StateView::Success { body })
        }),
{
}

} // verus!
