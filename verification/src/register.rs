//! Orchestration of one registration.
//!
//! A [`Registration`] decides; its caller acts. The caller validates the uuid
//! and the endpoint and reports the verdicts; from then on each answer of the
//! machine is an [`Action`] to perform, and the outcome of that action is the
//! next [`Event`] to report, until the answer is [`Action::Finish`].

use vstd::prelude::*;
use crate::connection::{
    accepted_record,
    new_connection,
    Connection,
    ConnectionData,
    ConnectionDataView,
    ConnectionView,
};
use crate::endpoint::{parse_url, parsed_url, text_view};
use crate::resolve::{registration_status, resolve};
use crate::status::RegistrationStatus;

verus! {

/// Whether a registration that changes nothing renews `last_registration`.
#[derive(Clone, Copy, Debug, PartialEq, Eq, Structural)]
pub enum RefreshPolicy {
    /// It leaves the stored record alone: no write at all.
    Preserve,
    /// It writes the record back with the time of this registration.
    Touch,
}

/// Why a record is being written.
#[derive(Clone, Copy, Debug, PartialEq, Eq, Structural)]
pub enum Cause {
    /// The uuid had no record.
    Created,
    /// The stored record differs in endpoint or credentials.
    Replaced,
    /// The record was forbidden at first, and at the second reading carried
    /// other credentials than the registration.
    Revived,
    /// Nothing differs; only the time of registration is renewed.
    Touched,
}

/// How far a registration has got.
#[derive(Clone, Copy, Debug, PartialEq, Eq, Structural)]
pub enum Phase {
    /// Waiting for the validators' verdicts.
    Validating,
    /// Waiting for the stored record.
    Resolving,
    /// The record was forbidden; waiting for it to be read a second time.
    Rechecking,
    /// Waiting for the store to take the new record.
    Writing(Cause),
    /// Finished: no further action will be asked for.
    Finished,
}

impl Phase {
    /// An upper bound on the events still to come.
    pub open spec fn rank(self) -> nat {
        match self {
            Phase::Validating => 4,
            Phase::Resolving => 3,
            Phase::Rechecking => 2,
            Phase::Writing(_) => 1,
            Phase::Finished => 0,
        }
    }
}

/// What the caller reports to the machine.
#[derive(Debug, PartialEq, Eq)]
pub enum Event {
    /// The validators' verdicts on the uuid and on the endpoint.
    Validated { uuid_valid: bool, endpoint_valid: bool },
    /// The store's record for the uuid, `None` where it has none.
    Fetched(Option<Connection>),
    /// Whether the store took the record it was asked to write.
    Written(bool),
}

/// What an [`Event`] holds.
pub enum EventView {
    Validated { uuid_valid: bool, endpoint_valid: bool },
    Fetched(Option<ConnectionView>),
    Written(bool),
}

/// The view of an optional record.
pub open spec fn record_view(record: Option<Connection>) -> Option<ConnectionView> {
    match record {
        Some(co) => Some(co@),
        None => None,
    }
}

impl View for Event {
    type V = EventView;

    open spec fn view(&self) -> EventView {
        match *self {
            Event::Validated { uuid_valid, endpoint_valid } => EventView::Validated {
                uuid_valid,
                endpoint_valid,
            },
            Event::Fetched(record) => EventView::Fetched(record_view(record)),
            Event::Written(ok) => EventView::Written(ok),
        }
    }
}

/// How a registration ended, and what is left for the caller to do about it.
/// None of what is left can fail the registration.
#[derive(Debug, PartialEq, Eq)]
pub struct Completion {
    /// The resolved status.
    pub status: RegistrationStatus,
    /// The record to hand to the live-connection manager, if any.
    pub dispatch: Option<Connection>,
    /// The URL to probe for reachability, if any.
    pub probe: Option<String>,
    /// Whether a forbidden connection was revived, so that there is one fewer.
    pub forbidden_cleared: bool,
}

/// What a [`Completion`] holds.
pub struct CompletionView {
    pub status: RegistrationStatus,
    pub dispatch: Option<ConnectionView>,
    pub probe: Option<Seq<char>>,
    pub forbidden_cleared: bool,
}

impl View for Completion {
    type V = CompletionView;

    open spec fn view(&self) -> CompletionView {
        CompletionView {
            status: self.status,
            dispatch: record_view(self.dispatch),
            probe: text_view(self.probe),
            forbidden_cleared: self.forbidden_cleared,
        }
    }
}

impl CompletionView {
    /// An ending with `status` that leaves nothing to do.
    pub open spec fn bare(status: RegistrationStatus) -> CompletionView {
        CompletionView { status, dispatch: None, probe: None, forbidden_cleared: false }
    }
}

impl Completion {
    /// An ending with `status` that leaves nothing to do.
    pub fn bare(status: RegistrationStatus) -> (done: Completion)
        ensures
            done@ == CompletionView::bare(status),
    {
        Completion { status, dispatch: None, probe: None, forbidden_cleared: false }
    }
}

/// What the machine asks of its caller.
#[derive(Debug, PartialEq, Eq)]
pub enum Action {
    /// Read the store's record for the registration's uuid and report it.
    Fetch,
    /// Write this record to the store, replacing any record of its uuid, and
    /// report whether the store took it.
    Write(Connection),
    /// Nothing more is asked for. Dispatch, probe and count as the completion
    /// says, and report its status to the device.
    Finish(Completion),
}

/// What an [`Action`] holds.
pub enum ActionView {
    Fetch,
    Write(ConnectionView),
    Finish(CompletionView),
}

impl View for Action {
    type V = ActionView;

    open spec fn view(&self) -> ActionView {
        match *self {
            Action::Fetch => ActionView::Fetch,
            Action::Write(co) => ActionView::Write(co@),
            Action::Finish(done) => ActionView::Finish(done@),
        }
    }
}

/// One registration on its way from submission to outcome.
pub struct Registration {
    co_data: ConnectionData,
    now: u64,
    policy: RefreshPolicy,
    phase: Phase,
}

/// What a [`Registration`] holds.
pub struct RegistrationView {
    pub co_data: ConnectionDataView,
    pub now: u64,
    pub policy: RefreshPolicy,
    pub phase: Phase,
}

impl View for Registration {
    type V = RegistrationView;

    closed spec fn view(&self) -> RegistrationView {
        RegistrationView {
            co_data: self.co_data@,
            now: self.now,
            policy: self.policy,
            phase: self.phase,
        }
    }
}

impl RegistrationView {
    /// A registration of `co_data` submitted at `now`, before anything is known
    /// of it.
    pub open spec fn start(co_data: ConnectionDataView, now: u64, policy: RefreshPolicy) -> Self {
        RegistrationView { co_data, now, policy, phase: Phase::Validating }
    }

    /// The one record this registration ever writes.
    pub open spec fn record(self) -> ConnectionView {
        accepted_record(self.co_data, self.now)
    }

    /// Ends with `done`.
    pub open spec fn finish(self, done: CompletionView) -> (Self, ActionView) {
        (RegistrationView { phase: Phase::Finished, ..self }, ActionView::Finish(done))
    }

    /// Ends in `InternalError`, leaving nothing to do.
    pub open spec fn fail(self) -> (Self, ActionView) {
        self.finish(CompletionView::bare(RegistrationStatus::InternalError))
    }

    /// Asks for the store's record and waits for it in `phase`.
    pub open spec fn fetch(self, phase: Phase) -> (Self, ActionView) {
        (RegistrationView { phase, ..self }, ActionView::Fetch)
    }

    /// Asks for the record to be written and remembers why.
    pub open spec fn write(self, cause: Cause) -> (Self, ActionView) {
        (RegistrationView { phase: Phase::Writing(cause), ..self }, ActionView::Write(self.record()))
    }

    /// The validators have spoken. An invalid uuid or endpoint ends the
    /// registration before the store is touched; otherwise the record is asked
    /// for.
    pub open spec fn validated(self, uuid_valid: bool, endpoint_valid: bool) -> (Self, ActionView) {
        if self.phase != Phase::Validating {
            self.fail()
        } else if !uuid_valid {
            self.finish(CompletionView::bare(RegistrationStatus::InvalidUuid))
        } else if !endpoint_valid {
            self.finish(CompletionView::bare(RegistrationStatus::InvalidEndpoint))
        } else {
            self.fetch(Phase::Resolving)
        }
    }

    /// The store has answered a first time: the registration is resolved
    /// against `stored`.
    pub open spec fn resolved(self, stored: Option<ConnectionView>) -> (Self, ActionView) {
        match resolve(self.co_data, true, true, stored) {
            RegistrationStatus::New => self.write(Cause::Created),
            RegistrationStatus::Updated => self.write(Cause::Replaced),
            RegistrationStatus::Running => match self.policy {
                RefreshPolicy::Preserve => self.finish(
                    CompletionView::bare(RegistrationStatus::Running),
                ),
                RefreshPolicy::Touch => self.write(Cause::Touched),
            },
            RegistrationStatus::Forbidden => self.fetch(Phase::Rechecking),
            _ => self.fail(),
        }
    }

    /// The store has answered a second time, after a first answer that made the
    /// registration `Forbidden`. It stays so only if the record still carries
    /// the registration's credentials.
    pub open spec fn rechecked(self, stored: Option<ConnectionView>) -> (Self, ActionView) {
        match stored {
            None => self.fail(),
            Some(co) => if co.same_credentials(self.co_data) {
                self.finish(CompletionView::bare(RegistrationStatus::Forbidden))
            } else {
                self.write(Cause::Revived)
            },
        }
    }

    /// The store has answered with `stored`.
    pub open spec fn fetched(self, stored: Option<ConnectionView>) -> (Self, ActionView) {
        match self.phase {
            Phase::Resolving => self.resolved(stored),
            Phase::Rechecking => self.rechecked(stored),
            _ => self.fail(),
        }
    }

    /// How a registration ends whose record the store has taken for `cause`;
    /// `probe` is the URL of its endpoint.
    pub open spec fn accepted(self, cause: Cause, probe: Option<Seq<char>>) -> CompletionView {
        match cause {
            Cause::Created => CompletionView {
                status: RegistrationStatus::New,
                dispatch: Some(self.record()),
                probe,
                forbidden_cleared: false,
            },
            Cause::Replaced => CompletionView {
                status: RegistrationStatus::Updated,
                dispatch: Some(self.record()),
                probe: None,
                forbidden_cleared: false,
            },
            Cause::Revived => CompletionView {
                status: RegistrationStatus::Updated,
                dispatch: Some(self.record()),
                probe: None,
                forbidden_cleared: true,
            },
            Cause::Touched => CompletionView::bare(RegistrationStatus::Running),
        }
    }

    /// The store has taken the record (`ok`) or refused it. A refusal ends the
    /// registration in `InternalError` with nothing dispatched.
    pub open spec fn written(self, ok: bool, probe: Option<Seq<char>>) -> (Self, ActionView) {
        match self.phase {
            Phase::Writing(cause) => if ok {
                self.finish(self.accepted(cause, probe))
            } else {
                self.fail()
            },
            _ => self.fail(),
        }
    }

    /// The machine's answer to `event`. An event that the current phase does
    /// not wait for ends the registration in `InternalError`.
    pub open spec fn step(self, event: EventView) -> (Self, ActionView) {
        match event {
            EventView::Validated { uuid_valid, endpoint_valid } => self.validated(
                uuid_valid,
                endpoint_valid,
            ),
            EventView::Fetched(stored) => self.fetched(stored),
            EventView::Written(ok) => self.written(ok, parsed_url(self.co_data.endpoint)),
        }
    }
}

impl Registration {
    /// Takes up the registration of `co_data`, submitted at `now` (seconds
    /// since the Unix epoch).
    pub fn new(co_data: ConnectionData, now: u64, policy: RefreshPolicy) -> (registration: Self)
        ensures
            registration@ == RegistrationView::start(co_data@, now, policy),
    {
        Registration { co_data, now, policy, phase: Phase::Validating }
    }

    /// How far the registration has got.
    pub fn phase(&self) -> (phase: Phase)
        ensures
            phase == self@.phase,
    {
        self.phase
    }

    /// The registration being decided.
    pub fn co_data(&self) -> (co_data: &ConnectionData)
        ensures
            co_data@ == self@.co_data,
    {
        &self.co_data
    }

    fn finish(&mut self, done: Completion) -> (action: Action)
        ensures
            (final(self)@, action@) == old(self)@.finish(done@),
    {
        self.phase = Phase::Finished;
        Action::Finish(done)
    }

    fn fail(&mut self) -> (action: Action)
        ensures
            (final(self)@, action@) == old(self)@.fail(),
    {
        self.finish(Completion::bare(RegistrationStatus::InternalError))
    }

    fn write(&mut self, cause: Cause) -> (action: Action)
        ensures
            (final(self)@, action@) == old(self)@.write(cause),
    {
        self.phase = Phase::Writing(cause);
        Action::Write(new_connection(&self.co_data, self.now))
    }

    /// Reports the validators' verdicts.
    pub fn validated(&mut self, uuid_valid: bool, endpoint_valid: bool) -> (action: Action)
        ensures
            (final(self)@, action@) == old(self)@.validated(uuid_valid, endpoint_valid),
    {
        match self.phase {
            Phase::Validating => {
                match registration_status(&self.co_data, uuid_valid, endpoint_valid, None) {
                    RegistrationStatus::InvalidUuid => self.finish(
                        Completion::bare(RegistrationStatus::InvalidUuid),
                    ),
                    RegistrationStatus::InvalidEndpoint => self.finish(
                        Completion::bare(RegistrationStatus::InvalidEndpoint),
                    ),
                    _ => {
                        self.phase = Phase::Resolving;
                        Action::Fetch
                    },
                }
            },
            _ => self.fail(),
        }
    }

    /// Reports the store's record for the uuid, `None` where it has none.
    pub fn fetched(&mut self, stored: Option<Connection>) -> (action: Action)
        ensures
            (final(self)@, action@) == old(self)@.fetched(record_view(stored)),
    {
        match self.phase {
            Phase::Resolving => {
                match registration_status(&self.co_data, true, true, stored.as_ref()) {
                    RegistrationStatus::New => self.write(Cause::Created),
                    RegistrationStatus::Updated => self.write(Cause::Replaced),
                    RegistrationStatus::Running => match self.policy {
                        RefreshPolicy::Preserve => self.finish(
                            Completion::bare(RegistrationStatus::Running),
                        ),
                        RefreshPolicy::Touch => self.write(Cause::Touched),
                    },
                    RegistrationStatus::Forbidden => {
                        self.phase = Phase::Rechecking;
                        Action::Fetch
                    },
                    _ => self.fail(),
                }
            },
            Phase::Rechecking => match stored {
                None => self.fail(),
                Some(co) => if co.same_credentials(&self.co_data) {
                    self.finish(Completion::bare(RegistrationStatus::Forbidden))
                } else {
                    self.write(Cause::Revived)
                },
            },
            _ => self.fail(),
        }
    }

    /// Reports whether the store took the record; `probe` is the URL of the
    /// registration's endpoint, if it is one.
    pub fn written(&mut self, ok: bool, probe: Option<String>) -> (action: Action)
        ensures
            (final(self)@, action@) == old(self)@.written(ok, text_view(probe)),
    {
        match self.phase {
            Phase::Writing(cause) => {
                if !ok {
                    return self.fail();
                }
                let done = match cause {
                    Cause::Created => Completion {
                        status: RegistrationStatus::New,
                        dispatch: Some(new_connection(&self.co_data, self.now)),
                        probe,
                        forbidden_cleared: false,
                    },
                    Cause::Replaced => Completion {
                        status: RegistrationStatus::Updated,
                        dispatch: Some(new_connection(&self.co_data, self.now)),
                        probe: None,
                        forbidden_cleared: false,
                    },
                    Cause::Revived => Completion {
                        status: RegistrationStatus::Updated,
                        dispatch: Some(new_connection(&self.co_data, self.now)),
                        probe: None,
                        forbidden_cleared: true,
                    },
                    Cause::Touched => Completion::bare(RegistrationStatus::Running),
                };
                self.finish(done)
            },
            _ => self.fail(),
        }
    }

    /// Reports `event` and returns what to do next. The URL to probe, where one
    /// is wanted, is what the `url` crate parses the endpoint to.
    pub fn step(&mut self, event: Event) -> (action: Action)
        ensures
            (final(self)@, action@) == old(self)@.step(event@),
    {
        match event {
            Event::Validated { uuid_valid, endpoint_valid } => self.validated(
                uuid_valid,
                endpoint_valid,
            ),
            Event::Fetched(stored) => self.fetched(stored),
            Event::Written(ok) => {
                let probe = match self.phase {
                    Phase::Writing(Cause::Created) => if ok {
                        parse_url(self.co_data.endpoint.as_str())
                    } else {
                        None
                    },
                    _ => None,
                };
                self.written(ok, probe)
            },
        }
    }
}

} // verus!
