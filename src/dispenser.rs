//! The credential dispenser as a state machine.
//!
//! `get` starts a request for a valid access token; the dispenser answers
//! with an [`Action`] (validate, request a token, wait for the browser
//! redirect, wait, persist), the caller performs it and hands back the
//! outcome as an [`Event`] to `step`, until the action is `Done` or `Fail`.
//! Each HTTP operation is retried with exponential backoff: one second after
//! the first failure, then two, then four, then the error is given up.
use vstd::prelude::*;
use crate::auth::{
    access_token_is_valid, authorize_url, code_of, code_uri, create_authorize_url,
    create_code_uri, create_refresh_uri, extract_code_from_url, json_string_field, refresh_uri,
    token_outcome, token_response, validation_outcome,
};
use crate::error::{ConnectorError, ErrorModel};
use crate::retry::{power_of_two, lemma_power_of_two_monotone, wait_after, ExponentialRetryManager, RetryPolicy};

verus! {

/// An HTTP operation that the dispenser may retry.
#[derive(Debug, Clone, PartialEq, Eq)]
pub enum Op {
    Validate,
    Refresh,
    /// Trade this authorization code for a token pair.
    Exchange(String),
}

#[derive(Debug, Clone, PartialEq, Eq)]
pub enum Phase {
    /// No request in progress.
    Idle,
    /// The operation's attempt with this index is under way.
    Running(Op, usize),
    /// Waiting before the operation's attempt with this index.
    Backoff(Op, usize),
    /// Waiting for the browser redirect that carries the code.
    AwaitingCode,
    /// A new pair is being stored.
    Persisting(String, String),
}

/// What the dispenser asks its caller to do next.
#[derive(Debug, Clone, PartialEq, Eq)]
pub enum Action {
    /// GET the validation endpoint with this bearer token.
    Validate(String),
    /// POST to this token URI.
    RequestToken(String),
    /// Show this URL to the operator and wait for the redirect.
    AwaitCode(String),
    /// Sleep this many seconds.
    Wait(u64),
    /// Store this access token and refresh token.
    Persist(String, String),
    /// The request is over: this access token is valid.
    Done(String),
    /// The request is over: it failed.
    Fail(ConnectorError),
}

/// The outcome of the last action.
#[derive(Debug, Clone, PartialEq, Eq)]
pub enum Event {
    /// The HTTP answer's status and body.
    Status(u16, String),
    /// The HTTP request could not be made or read.
    RequestFailed(String),
    /// The listener received a request for this URL.
    Redirect(String),
    /// The listener could not be started or could not receive.
    ListenFailed(String),
    Waited,
    /// Storing was attempted; a failure there does not stop the dispenser.
    Persisted,
}

/// Owns the current token pair and renews it when the server rejects it.
#[derive(Debug, Clone)]
pub struct AccessTokenDispenser {
    pub client_id: String,
    pub client_secret: String,
    pub access_token: String,
    pub refresh_token: String,
    /// A pair has been loaded or obtained.
    pub authorized: bool,
    pub phase: Phase,
}

pub enum OpModel {
    Validate,
    Refresh,
    Exchange(Seq<char>),
}

pub enum PhaseModel {
    Idle,
    Running(OpModel, nat),
    Backoff(OpModel, nat),
    AwaitingCode,
    Persisting(Seq<char>, Seq<char>),
}

pub enum ActionModel {
    Validate(Seq<char>),
    RequestToken(Seq<char>),
    AwaitCode(Seq<char>),
    Wait(u64),
    Persist(Seq<char>, Seq<char>),
    Done(Seq<char>),
    Fail(ErrorModel),
}

pub enum EventModel {
    Status(u16, Seq<char>),
    RequestFailed(Seq<char>),
    Redirect(Seq<char>),
    ListenFailed(Seq<char>),
    Waited,
    Persisted,
}

pub struct DispenserModel {
    pub client_id: Seq<char>,
    pub client_secret: Seq<char>,
    pub access: Seq<char>,
    pub refresh: Seq<char>,
    pub authorized: bool,
    pub phase: PhaseModel,
}

impl View for Op {
    type V = OpModel;

    open spec fn view(&self) -> OpModel {
        match self {
            Op::Validate => OpModel::Validate,
            Op::Refresh => OpModel::Refresh,
            Op::Exchange(c) => OpModel::Exchange(c@),
        }
    }
}

impl View for Phase {
    type V = PhaseModel;

    open spec fn view(&self) -> PhaseModel {
        match self {
            Phase::Idle => PhaseModel::Idle,
            Phase::Running(op, n) => PhaseModel::Running(op@, *n as nat),
            Phase::Backoff(op, n) => PhaseModel::Backoff(op@, *n as nat),
            Phase::AwaitingCode => PhaseModel::AwaitingCode,
            Phase::Persisting(a, r) => PhaseModel::Persisting(a@, r@),
        }
    }
}

impl View for Action {
    type V = ActionModel;

    open spec fn view(&self) -> ActionModel {
        match self {
            Action::Validate(t) => ActionModel::Validate(t@),
            Action::RequestToken(u) => ActionModel::RequestToken(u@),
            Action::AwaitCode(u) => ActionModel::AwaitCode(u@),
            Action::Wait(s) => ActionModel::Wait(*s),
            Action::Persist(a, r) => ActionModel::Persist(a@, r@),
            Action::Done(t) => ActionModel::Done(t@),
            Action::Fail(e) => ActionModel::Fail(e@),
        }
    }
}

impl View for Event {
    type V = EventModel;

    open spec fn view(&self) -> EventModel {
        match self {
            Event::Status(s, b) => EventModel::Status(*s, b@),
            Event::RequestFailed(m) => EventModel::RequestFailed(m@),
            Event::Redirect(u) => EventModel::Redirect(u@),
            Event::ListenFailed(m) => EventModel::ListenFailed(m@),
            Event::Waited => EventModel::Waited,
            Event::Persisted => EventModel::Persisted,
        }
    }
}

impl View for AccessTokenDispenser {
    type V = DispenserModel;

    open spec fn view(&self) -> DispenserModel {
        DispenserModel {
            client_id: self.client_id@,
            client_secret: self.client_secret@,
            access: self.access_token@,
            refresh: self.refresh_token@,
            authorized: self.authorized,
            phase: self.phase@,
        }
    }
}

/// Number of attempts of each operation that are retried after failing.
pub open spec fn max_retries() -> nat {
    3
}

pub open spec fn with_phase(d: DispenserModel, p: PhaseModel) -> DispenserModel {
    DispenserModel { phase: p, ..d }
}

/// The action that performs an operation.
pub open spec fn issue(d: DispenserModel, op: OpModel) -> ActionModel {
    match op {
        OpModel::Validate => ActionModel::Validate(d.access),
        OpModel::Refresh => ActionModel::RequestToken(
            refresh_uri(d.client_id, d.client_secret, d.refresh),
        ),
        OpModel::Exchange(c) => ActionModel::RequestToken(code_uri(d.client_id, d.client_secret, c)),
    }
}

/// After a failed attempt: wait and retry, or give the error up.
pub open spec fn retry_or_fail(d: DispenserModel, op: OpModel, n: nat, err: ErrorModel) -> (
    DispenserModel,
    ActionModel,
) {
    if n < max_retries() {
        (with_phase(d, PhaseModel::Backoff(op, n + 1)), ActionModel::Wait(wait_after(1, n) as u64))
    } else {
        (with_phase(d, PhaseModel::Idle), ActionModel::Fail(err))
    }
}

/// A rejection of a token request: the grant itself is refused.
pub open spec fn is_rejection(e: ErrorModel) -> bool {
    e is HTTP400 || e is HTTP403 || e is HTTP404
}

pub open spec fn token_result(body_status: u16, body: Seq<char>) -> Result<
    (Seq<char>, Seq<char>),
    ErrorModel,
> {
    token_outcome(
        body_status,
        body,
        json_string_field(body, "access_token"@),
        json_string_field(body, "refresh_token"@),
        json_string_field(body, "message"@),
    )
}

/// What `get` does: validate the held token, or start the authorization
/// when no pair is held.
pub open spec fn begin(d: DispenserModel) -> (DispenserModel, ActionModel) {
    if d.authorized {
        (with_phase(d, PhaseModel::Running(OpModel::Validate, 0)), ActionModel::Validate(d.access))
    } else {
        (with_phase(d, PhaseModel::AwaitingCode), ActionModel::AwaitCode(authorize_url(d.client_id)))
    }
}

/// What `step` does with the outcome of the last action.
pub open spec fn advance(d: DispenserModel, e: EventModel) -> (DispenserModel, ActionModel) {
    let fail = (with_phase(d, PhaseModel::Idle), ActionModel::Fail(ErrorModel::UnexpectedEvent));
    match d.phase {
        PhaseModel::Running(op, n) => match e {
            EventModel::RequestFailed(m) => retry_or_fail(d, op, n, ErrorModel::RequestFailed(m)),
            EventModel::Status(status, body) => match op {
                OpModel::Validate => match validation_outcome(status) {
                    Ok(true) => (with_phase(d, PhaseModel::Idle), ActionModel::Done(d.access)),
                    Ok(false) => (
                        with_phase(d, PhaseModel::Running(OpModel::Refresh, 0)),
                        issue(d, OpModel::Refresh),
                    ),
                    Err(err) => retry_or_fail(d, op, n, err),
                },
                OpModel::Refresh => match token_result(status, body) {
                    Ok((a, r)) => (
                        with_phase(d, PhaseModel::Persisting(a, r)),
                        ActionModel::Persist(a, r),
                    ),
                    Err(err) => if is_rejection(err) {
                        (
                            with_phase(d, PhaseModel::AwaitingCode),
                            ActionModel::AwaitCode(authorize_url(d.client_id)),
                        )
                    } else {
                        retry_or_fail(d, op, n, err)
                    },
                },
                OpModel::Exchange(_) => match token_result(status, body) {
                    Ok((a, r)) => (
                        with_phase(d, PhaseModel::Persisting(a, r)),
                        ActionModel::Persist(a, r),
                    ),
                    Err(err) => if is_rejection(err) {
                        (with_phase(d, PhaseModel::Idle), ActionModel::Fail(err))
                    } else {
                        retry_or_fail(d, op, n, err)
                    },
                },
            },
            _ => fail,
        },
        PhaseModel::Backoff(op, n) => match e {
            EventModel::Waited => (with_phase(d, PhaseModel::Running(op, n)), issue(d, op)),
            _ => fail,
        },
        PhaseModel::AwaitingCode => match e {
            EventModel::Redirect(url) => match code_of(url) {
                Some(c) => (
                    with_phase(d, PhaseModel::Running(OpModel::Exchange(c), 0)),
                    issue(d, OpModel::Exchange(c)),
                ),
                None => (with_phase(d, PhaseModel::Idle), ActionModel::Fail(ErrorModel::MissingCode(url))),
            },
            EventModel::ListenFailed(m) => (
                with_phase(d, PhaseModel::Idle),
                ActionModel::Fail(ErrorModel::MessageReceiveFailed(m)),
            ),
            _ => fail,
        },
        PhaseModel::Persisting(a, r) => match e {
            EventModel::Persisted => (
                DispenserModel {
                    access: a,
                    refresh: r,
                    authorized: true,
                    phase: PhaseModel::Idle,
                    ..d
                },
                ActionModel::Done(a),
            ),
            _ => fail,
        },
        PhaseModel::Idle => fail,
    }
}

impl AccessTokenDispenser {
    /// A dispenser holding the cached pair if there is one; without one,
    /// the first `get` runs the authorization.
    pub fn new(client_id: &str, client_secret: &str, cached: Option<(String, String)>) -> (r: Self)
        ensures
            r@.client_id == client_id@,
            r@.client_secret == client_secret@,
            r@.phase == PhaseModel::Idle,
            r@.authorized == cached is Some,
            cached matches Some(p) ==> r@.access == p.0@ && r@.refresh == p.1@,
    {
        let (access_token, refresh_token, authorized) = match cached {
            Some((a, r)) => (a, r, true),
            None => (String::new(), String::new(), false),
        };
        AccessTokenDispenser {
            client_id: client_id.to_owned(),
            client_secret: client_secret.to_owned(),
            access_token,
            refresh_token,
            authorized,
            phase: Phase::Idle,
        }
    }

    fn issue_op(&self, op: &Op) -> (r: Action)
        ensures
            r@ == issue(self@, op@),
    {
        match op {
            Op::Validate => Action::Validate(self.access_token.clone()),
            Op::Refresh => Action::RequestToken(
                create_refresh_uri(
                    self.client_id.as_str(),
                    self.client_secret.as_str(),
                    self.refresh_token.as_str(),
                ),
            ),
            Op::Exchange(c) => Action::RequestToken(
                create_code_uri(self.client_id.as_str(), self.client_secret.as_str(), c.as_str()),
            ),
        }
    }

    fn retry_op(&mut self, op: Op, n: usize, err: ConnectorError) -> (r: Action)
        ensures
            (final(self)@, r@) == retry_or_fail(old(self)@, op@, n as nat, err@),
    {
        let mut policy = ExponentialRetryManager::new(Some(1), Some(3));
        proof {
            if n < 3 {
                lemma_power_of_two_monotone(n as nat, 2);
                assert(power_of_two(0) == 1);
                assert(power_of_two(1) == 2);
                assert(power_of_two(2) == 4);
            }
        }
        match policy.handle(n, err) {
            RetryPolicy::WaitRetry(secs) => {
                self.phase = Phase::Backoff(op, n + 1);
                Action::Wait(secs)
            },
            RetryPolicy::ForwardError(e) => {
                self.phase = Phase::Idle;
                Action::Fail(e)
            },
        }
    }

    /// Starts a request for a valid access token.
    pub fn get(&mut self) -> (r: Action)
        ensures
            (final(self)@, r@) == begin(old(self)@),
    {
        if self.authorized {
            self.phase = Phase::Running(Op::Validate, 0);
            Action::Validate(self.access_token.clone())
        } else {
            self.phase = Phase::AwaitingCode;
            Action::AwaitCode(create_authorize_url(self.client_id.as_str()))
        }
    }

    /// Takes the outcome of the last action and says what comes next.
    pub fn step(&mut self, event: Event) -> (r: Action)
        ensures
            (final(self)@, r@) == advance(old(self)@, event@),
    {
        let mut phase = Phase::Idle;
        std::mem::swap(&mut phase, &mut self.phase);
        self.phase = Phase::Idle;
        match phase {
            Phase::Running(op, n) => match event {
                Event::RequestFailed(m) => self.retry_op(op, n, ConnectorError::RequestFailed(m)),
                Event::Status(status, body) => match op {
                    Op::Validate => match access_token_is_valid(status) {
                        Ok(true) => {
                            self.phase = Phase::Idle;
                            Action::Done(self.access_token.clone())
                        },
                        Ok(false) => {
                            self.phase = Phase::Running(Op::Refresh, 0);
                            self.issue_op(&Op::Refresh)
                        },
                        Err(err) => self.retry_op(Op::Validate, n, err),
                    },
                    Op::Refresh => match token_response(status, body.as_str()) {
                        Ok((a, r)) => {
                            self.phase = Phase::Persisting(a.clone(), r.clone());
                            Action::Persist(a, r)
                        },
                        Err(err) => {
                            if is_rejection_error(&err) {
                                self.phase = Phase::AwaitingCode;
                                Action::AwaitCode(create_authorize_url(self.client_id.as_str()))
                            } else {
                                self.retry_op(Op::Refresh, n, err)
                            }
                        },
                    },
                    Op::Exchange(code) => match token_response(status, body.as_str()) {
                        Ok((a, r)) => {
                            self.phase = Phase::Persisting(a.clone(), r.clone());
                            Action::Persist(a, r)
                        },
                        Err(err) => {
                            if is_rejection_error(&err) {
                                self.phase = Phase::Idle;
                                Action::Fail(err)
                            } else {
                                self.retry_op(Op::Exchange(code), n, err)
                            }
                        },
                    },
                },
                _ => {
                    self.phase = Phase::Idle;
                    Action::Fail(ConnectorError::UnexpectedEvent)
                },
            },
            Phase::Backoff(op, n) => match event {
                Event::Waited => {
                    let r = self.issue_op(&op);
                    self.phase = Phase::Running(op, n);
                    r
                },
                _ => {
                    self.phase = Phase::Idle;
                    Action::Fail(ConnectorError::UnexpectedEvent)
                },
            },
            Phase::AwaitingCode => match event {
                Event::Redirect(url) => match extract_code_from_url(url.as_str()) {
                    Some(c) => {
                        let op = Op::Exchange(c);
                        let r = self.issue_op(&op);
                        self.phase = Phase::Running(op, 0);
                        r
                    },
                    None => {
                        self.phase = Phase::Idle;
                        Action::Fail(ConnectorError::MissingCode(url))
                    },
                },
                Event::ListenFailed(m) => {
                    self.phase = Phase::Idle;
                    Action::Fail(ConnectorError::MessageReceiveFailed(m))
                },
                _ => {
                    self.phase = Phase::Idle;
                    Action::Fail(ConnectorError::UnexpectedEvent)
                },
            },
            Phase::Persisting(a, r) => match event {
                Event::Persisted => {
                    self.access_token = a.clone();
                    self.refresh_token = r;
                    self.authorized = true;
                    self.phase = Phase::Idle;
                    Action::Done(a)
                },
                _ => {
                    self.phase = Phase::Idle;
                    Action::Fail(ConnectorError::UnexpectedEvent)
                },
            },
            Phase::Idle => Action::Fail(ConnectorError::UnexpectedEvent),
        }
    }
}

fn is_rejection_error(e: &ConnectorError) -> (r: bool)
    ensures
        r == is_rejection(e@),
{
    match e {
        ConnectorError::HTTP400(_) => true,
        ConnectorError::HTTP403(_) => true,
        ConnectorError::HTTP404 => true,
        _ => false,
    }
}

} // verus!
