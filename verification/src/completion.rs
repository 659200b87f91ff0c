//! How one request ends: which of the host's two completion handles is
//! invoked, and with what.

use crate::request::CompletionHandles;
use crate::request::DecodeError;
use crate::request::HostRequestView;
use vstd::prelude::*;

verus! {

/// Why a request failed. The host is told only that it failed; the cause is
/// for the application's own diagnostics.
#[derive(Debug, PartialEq, Eq)]
pub enum FailureCause<E> {
    /// The host's request object could not be decoded.
    Decode(DecodeError),
    /// The fetch contract returned an error.
    Fetch(E),
}

/// How one request ends: the one handle that is owed a call, and what the
/// call hands over. The request's other handle is dropped uncalled.
#[derive(Debug, PartialEq, Eq)]
pub enum Completion<H, R, E> {
    /// The request's success handle is owed one call, with the rows as its
    /// only argument.
    Success { handle: H, rows: Vec<R> },
    /// The request's failure handle is owed one call, without arguments.
    Failure { handle: H, cause: FailureCause<E> },
}

/// One invocation of a completion handle, as the host sees it.
pub struct HandleCall<H, R> {
    pub handle: H,
    pub arguments: Seq<Vec<R>>,
}

impl<H, R, E> Completion<H, R, E> {
    /// The completion that a fetch result leads to: rows go to the success
    /// handle as they are, an error goes to the failure handle.
    pub open spec fn resolved(
        handles: CompletionHandles<H>,
        fetched: Result<Vec<R>, E>,
    ) -> Completion<H, R, E> {
        match fetched {
            Ok(rows) => Completion::Success { handle: handles.success, rows },
            Err(error) => Completion::Failure {
                handle: handles.failure,
                cause: FailureCause::Fetch(error),
            },
        }
    }

    /// The completion of a request that could not be decoded.
    pub open spec fn undecoded(handles: CompletionHandles<H>, error: DecodeError) -> Completion<
        H,
        R,
        E,
    > {
        Completion::Failure { handle: handles.failure, cause: FailureCause::Decode(error) }
    }

    /// The handle invocations that deliver this completion to the host, in
    /// order. A success is one call of the success handle with the rows as
    /// its sole argument; a failure is one call of the failure handle with no
    /// argument, whatever the cause.
    pub open spec fn delivery(self) -> Seq<HandleCall<H, R>> {
        match self {
            Completion::Success { handle, rows } => seq![
                HandleCall { handle, arguments: seq![rows] },
            ],
            Completion::Failure { handle, cause } => seq![
                HandleCall { handle, arguments: Seq::empty() },
            ],
        }
    }

    /// Turns the result of the fetch contract into the completion of the
    /// request.
    pub fn resolve(handles: CompletionHandles<H>, fetched: Result<Vec<R>, E>) -> (completion:
        Completion<H, R, E>)
        ensures
            completion == Self::resolved(handles, fetched),
    {
        match fetched {
            Ok(rows) => Completion::Success { handle: handles.success, rows },
            Err(error) => Completion::Failure {
                handle: handles.failure,
                cause: FailureCause::Fetch(error),
            },
        }
    }

    /// Ends a request that could not be decoded.
    pub fn fail_undecoded(handles: CompletionHandles<H>, error: DecodeError) -> (completion:
        Completion<H, R, E>)
        ensures
            completion == Self::undecoded(handles, error),
    {
        Completion::Failure { handle: handles.failure, cause: FailureCause::Decode(error) }
    }
}

/// How a request ends, given what the fetch contract returns for it. A
/// request that cannot be decoded fails without a fetch; any other ends as
/// the fetch result says.
pub open spec fn outcome<M, H, R, E>(
    request: HostRequestView<M, H>,
    fetched: Result<Vec<R>, E>,
) -> Completion<H, R, E> {
    match request.decoded() {
        Err(error) => Completion::undecoded(request.handles(), error),
        Ok(_) => Completion::resolved(request.handles(), fetched),
    }
}

} // verus!
