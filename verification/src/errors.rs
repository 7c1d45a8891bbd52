use vstd::prelude::*;

verus! {

/// Failure of the search endpoint: either the transport failed, or the
/// response arrived but was not the shape the provider documents (a present
/// `flights` field that is not an array, or a body that is not a JSON
/// document at all). A response that merely omits the result collection is
/// not an error; it stands for "no matches".
#[derive(Clone, Copy, Debug, PartialEq, Eq, Structural)]
pub enum DataSourceError {
    Transport,
    Malformed,
}

/// Failure of the one-time interactive authorization: the callback request
/// was not the expected `GET /callback` line, its query string lacked the
/// authorization code or the CSRF state, or the token exchange failed.
#[derive(Clone, Copy, Debug, PartialEq, Eq, Structural)]
pub enum AuthorizationError {
    BadCallback,
    MissingCode,
    MissingState,
    ExchangeFailed,
}

/// Failure of the announcement post. The leader update already committed is
/// kept: a transient publish failure may cost one announcement but never
/// causes a duplicate.
#[derive(Clone, Copy, Debug, PartialEq, Eq, Structural)]
pub enum PublishError {
    Transport,
    Rejected,
}

/// Failure reading or writing the leader or session rows. Fatal before any
/// publish attempt, so nothing is ever announced without durable state.
#[derive(Clone, Copy, Debug, PartialEq, Eq, Structural)]
pub enum PersistenceError {
    Read,
    Write,
}

/// Everything that can end a job cycle early. Each cycle is isolated: the
/// coordinator reports the error and waits for the next scheduled firing.
#[derive(Clone, Copy, Debug, PartialEq, Eq, Structural)]
pub enum CycleError {
    DataSource(DataSourceError),
    Authorization(AuthorizationError),
    Publish(PublishError),
    Persistence(PersistenceError),
    InsufficientData,
}

/// The line the coordinator logs for an error that ended a cycle.
pub open spec fn spec_cycle_error_message(e: CycleError) -> Seq<char> {
    match e {
        CycleError::DataSource(DataSourceError::Transport) => "data source transport failure"@,
        CycleError::DataSource(DataSourceError::Malformed) => "malformed data source response"@,
        CycleError::Authorization(AuthorizationError::BadCallback) => "authorization callback was not the expected request"@,
        CycleError::Authorization(AuthorizationError::MissingCode) => "authorization callback carried no code"@,
        CycleError::Authorization(AuthorizationError::MissingState) => "authorization callback carried no state"@,
        CycleError::Authorization(AuthorizationError::ExchangeFailed) => "authorization token exchange failed"@,
        CycleError::Publish(PublishError::Transport) => "publish transport failure"@,
        CycleError::Publish(PublishError::Rejected) => "publish rejected by the provider"@,
        CycleError::Persistence(PersistenceError::Read) => "could not read persisted state"@,
        CycleError::Persistence(PersistenceError::Write) => "could not write persisted state"@,
        CycleError::InsufficientData => "not enough results at any threshold"@,
    }
}

impl CycleError {
    /// What the coordinator logs before it ends the cycle.
    pub fn describe(&self) -> (s: String)
        ensures
            s@ == spec_cycle_error_message(*self),
    {
        match self {
            CycleError::DataSource(DataSourceError::Transport) => String::from_str(
                "data source transport failure",
            ),
            CycleError::DataSource(DataSourceError::Malformed) => String::from_str(
                "malformed data source response",
            ),
            CycleError::Authorization(AuthorizationError::BadCallback) => String::from_str(
                "authorization callback was not the expected request",
            ),
            CycleError::Authorization(AuthorizationError::MissingCode) => String::from_str(
                "authorization callback carried no code",
            ),
            CycleError::Authorization(AuthorizationError::MissingState) => String::from_str(
                "authorization callback carried no state",
            ),
            CycleError::Authorization(AuthorizationError::ExchangeFailed) => String::from_str(
                "authorization token exchange failed",
            ),
            CycleError::Publish(PublishError::Transport) => String::from_str(
                "publish transport failure",
            ),
            CycleError::Publish(PublishError::Rejected) => String::from_str(
                "publish rejected by the provider",
            ),
            CycleError::Persistence(PersistenceError::Read) => String::from_str(
                "could not read persisted state",
            ),
            CycleError::Persistence(PersistenceError::Write) => String::from_str(
                "could not write persisted state",
            ),
            CycleError::InsufficientData => String::from_str(
                "not enough results at any threshold",
            ),
        }
    }
}

} // verus!
