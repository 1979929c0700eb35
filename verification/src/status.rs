//! The statuses a registration resolves to, and the vocabulary callers see.

use vstd::prelude::*;

verus! {

/// How a registration was resolved. Orchestration detail: callers outside the
/// crate depend on [`OutcomeCode`] only.
#[derive(Clone, Copy, Debug, PartialEq, Eq, Structural)]
pub enum RegistrationStatus {
    /// No record was stored for the uuid; one has been created.
    New,
    /// A record existed and has been replaced.
    Updated,
    /// The stored record already says what the registration says.
    Running,
    /// The stored record is forbidden and the registration proves no new session.
    Forbidden,
    /// The uuid failed validation.
    InvalidUuid,
    /// The endpoint failed validation.
    InvalidEndpoint,
    /// The store failed, or the exchange with the caller went off protocol.
    InternalError,
}

/// The result of a registration as reported to the caller.
#[derive(Clone, Copy, Debug, PartialEq, Eq, Structural)]
pub enum OutcomeCode {
    Okay,
    Forbidden,
    InvalidUuid,
    InvalidEndpoint,
    InternalError,
}

impl RegistrationStatus {
    /// The code under which this status is reported.
    pub open spec fn outcome_spec(self) -> OutcomeCode {
        match self {
            RegistrationStatus::New | RegistrationStatus::Updated | RegistrationStatus::Running =>
                OutcomeCode::Okay,
            RegistrationStatus::Forbidden => OutcomeCode::Forbidden,
            RegistrationStatus::InvalidUuid => OutcomeCode::InvalidUuid,
            RegistrationStatus::InvalidEndpoint => OutcomeCode::InvalidEndpoint,
            RegistrationStatus::InternalError => OutcomeCode::InternalError,
        }
    }

    /// The code under which this status is reported.
    #[verifier::when_used_as_spec(outcome_spec)]
    pub fn outcome(self) -> (code: OutcomeCode)
        ensures
            code == self.outcome_spec(),
    {
        match self {
            RegistrationStatus::New => OutcomeCode::Okay,
            RegistrationStatus::Updated => OutcomeCode::Okay,
            RegistrationStatus::Running => OutcomeCode::Okay,
            RegistrationStatus::Forbidden => OutcomeCode::Forbidden,
            RegistrationStatus::InvalidUuid => OutcomeCode::InvalidUuid,
            RegistrationStatus::InvalidEndpoint => OutcomeCode::InvalidEndpoint,
            RegistrationStatus::InternalError => OutcomeCode::InternalError,
        }
    }
}

impl OutcomeCode {
    /// The word a caller reads for this code.
    pub open spec fn text(self) -> Seq<char> {
        match self {
            OutcomeCode::Okay => "ok"@,
            OutcomeCode::Forbidden => "forbidden"@,
            OutcomeCode::InvalidUuid => "invalid_uuid"@,
            OutcomeCode::InvalidEndpoint => "invalid_endpoint"@,
            OutcomeCode::InternalError => "internal_error"@,
        }
    }

    /// The word a caller reads for this code.
    pub fn as_str(self) -> (word: &'static str)
        ensures
            word@ == self.text(),
    {
        match self {
            OutcomeCode::Okay => "ok",
            OutcomeCode::Forbidden => "forbidden",
            OutcomeCode::InvalidUuid => "invalid_uuid",
            OutcomeCode::InvalidEndpoint => "invalid_endpoint",
            OutcomeCode::InternalError => "internal_error",
        }
    }
}

impl From<RegistrationStatus> for String {
    /// The word under which a status is reported to the caller.
    fn from(r: RegistrationStatus) -> (word: String)
        ensures
            word@ == r.outcome().text(),
    {
        r.outcome().as_str().to_owned()
    }
}

/// `String` offers no value to name in specifications, so the conversion is
/// stated on `from` itself, over the view of the word it returns.
impl vstd::std_specs::convert::FromSpecImpl<RegistrationStatus> for String {
    open spec fn obeys_from_spec() -> bool {
        false
    }

    open spec fn from_spec(r: RegistrationStatus) -> String {
        arbitrary()
    }
}

} // verus!
