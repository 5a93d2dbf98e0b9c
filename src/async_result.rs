//! The state of one remote read.
use vstd::prelude::*;

verus! {

/// Why a remote read failed.
#[derive(Clone, Copy, Debug, PartialEq, Eq, Structural)]
pub enum FetchError {
    /// The gateway could not be reached or did not answer.
    Transport,
    /// The gateway answered with account data that could not be decoded.
    Decode,
    /// The requested account or record does not exist.
    NotFound,
}

/// Lifecycle of one remote read: in progress, succeeded or failed.
#[derive(Clone, Debug, PartialEq, Eq)]
pub enum AsyncResult<T> {
    Loading,
    Ready(T),
    Error(FetchError),
}

impl<T> AsyncResult<T> {
    /// The state that a gateway outcome is committed as.
    pub open spec fn of_outcome(outcome: Result<T, FetchError>) -> AsyncResult<T> {
        match outcome {
            Ok(v) => AsyncResult::Ready(v),
            Err(e) => AsyncResult::Error(e),
        }
    }

    /// A read that has not resolved yet.
    pub fn loading() -> (r: AsyncResult<T>)
        ensures
            r is Loading,
    {
        AsyncResult::Loading
    }

    /// The state for what the gateway returned: its value, or its error.
    pub fn from_outcome(outcome: Result<T, FetchError>) -> (r: AsyncResult<T>)
        ensures
            r == Self::of_outcome(outcome),
    {
        match outcome {
            Ok(v) => AsyncResult::Ready(v),
            Err(e) => AsyncResult::Error(e),
        }
    }

    pub fn is_loading(&self) -> (r: bool)
        ensures
            r == (*self is Loading),
    {
        match self {
            AsyncResult::Loading => true,
            _ => false,
        }
    }

    /// Whether the read has resolved, either way.
    pub fn is_terminal(&self) -> (r: bool)
        ensures
            r == !(*self is Loading),
    {
        !self.is_loading()
    }

    pub fn is_ok(&self) -> (r: bool)
        ensures
            r == (*self is Ready),
    {
        match self {
            AsyncResult::Ready(_) => true,
            _ => false,
        }
    }

    pub fn is_error(&self) -> (r: bool)
        ensures
            r == (*self is Error),
    {
        match self {
            AsyncResult::Error(_) => true,
            _ => false,
        }
    }

    /// The value, only when the read succeeded.
    pub fn value(&self) -> (r: Option<&T>)
        ensures
            r is Some <==> *self is Ready,
            r is Some ==> *r->0 == self->Ready_0,
    {
        match self {
            AsyncResult::Ready(v) => Some(v),
            _ => None,
        }
    }

    /// The cause, only when the read failed.
    pub fn error(&self) -> (r: Option<FetchError>)
        ensures
            r is Some <==> *self is Error,
            r is Some ==> r->0 == self->Error_0,
    {
        match self {
            AsyncResult::Error(e) => Some(*e),
            _ => None,
        }
    }
}

} // verus!
