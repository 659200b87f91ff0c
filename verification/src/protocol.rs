//! What the host observes of the bridge: every request ends in one call of
//! one of its two completion handles, and requests in flight at the same time
//! do not touch each other.

use crate::completion::outcome;
use crate::completion::Completion;
use crate::completion::HandleCall;
use crate::request::lemma_undecodable_entry_has_a_first;
use crate::request::HostRequestView;
use crate::sort::SortDirection;
use vstd::prelude::*;

verus! {

/// The call of a request's success handle that hands over `rows`.
pub open spec fn success_call<M, H, R>(request: HostRequestView<M, H>, rows: Vec<R>) -> HandleCall<
    H,
    R,
> {
    HandleCall { handle: request.success_callback, arguments: seq![rows] }
}

/// The call of a request's failure handle. It has no arguments.
pub open spec fn failure_call<M, H, R>(request: HostRequestView<M, H>) -> HandleCall<H, R> {
    HandleCall { handle: request.fail_callback, arguments: Seq::empty() }
}

/// Whatever the request and whatever the fetch contract returns, the request
/// ends in exactly one handle call: either its success handle takes the
/// fetched rows, or its failure handle is called without arguments.
pub proof fn lemma_one_call_per_request<M, H, R, E>(
    request: HostRequestView<M, H>,
    fetched: Result<Vec<R>, E>,
)
    ensures
        outcome(request, fetched).delivery().len() == 1,
        outcome(request, fetched).delivery() == if request.decodable() && fetched is Ok {
            seq![success_call(request, fetched->Ok_0)]
        } else {
            seq![failure_call::<M, H, R>(request)]
        },
{
}

/// When the request can be decoded and the fetch contract returns rows, the
/// host sees one call of the request's success handle, which carries those
/// rows, and no call of its failure handle.
pub proof fn lemma_rows_reach_the_success_handle<M, H, R, E>(
    request: HostRequestView<M, H>,
    rows: Vec<R>,
)
    requires
        request.decodable(),
    ensures
        outcome(request, Ok::<Vec<R>, E>(rows)).delivery() == seq![success_call(request, rows)],
{
}

/// When the fetch contract returns an error, the host sees one call of the
/// request's failure handle, without arguments, and no call of its success
/// handle.
pub proof fn lemma_fetch_error_reaches_the_failure_handle<M, H, R, E>(
    request: HostRequestView<M, H>,
    error: E,
)
    ensures
        outcome(request, Err::<Vec<R>, E>(error)).delivery() == seq![failure_call::<M, H, R>(request)],
{
}

/// A request whose sort list carries a direction token that is neither
/// `"asc"` nor `"desc"` cannot be decoded, and ends in one call of its
/// failure handle, whatever the fetch contract would have returned; its
/// success handle is not called.
pub proof fn lemma_unknown_direction_reaches_the_failure_handle<M, H, R, E>(
    request: HostRequestView<M, H>,
    i: int,
    fetched: Result<Vec<R>, E>,
)
    requires
        request.sort_model is Some,
        0 <= i < request.sort_model->0.len(),
        request.sort_model->0[i].sort is Some,
        SortDirection::of_token(request.sort_model->0[i].sort->0) is None,
    ensures
        !request.decodable(),
        outcome(request, fetched).delivery() == seq![failure_call::<M, H, R>(request)],
{
    lemma_undecodable_entry_has_a_first(request.sort_model->0, i);
}

/// The handle calls that the host has seen, oldest first, each with the
/// request whose handle was called; `deliver` adds those of one completion.
pub open spec fn deliver<H, R, E>(
    log: Seq<(int, HandleCall<H, R>)>,
    request: int,
    completion: Completion<H, R, E>,
) -> Seq<(int, HandleCall<H, R>)> {
    log + completion.delivery().map_values(|call: HandleCall<H, R>| (request, call))
}

/// The handle calls in the log that belong to one request.
pub open spec fn calls_of<H, R>(log: Seq<(int, HandleCall<H, R>)>, request: int) -> Seq<
    HandleCall<H, R>,
> {
    log.filter(|entry: (int, HandleCall<H, R>)| entry.0 == request).map_values(
        |entry: (int, HandleCall<H, R>)| entry.1,
    )
}

/// Delivering a completion adds its calls to the request it belongs to and
/// leaves what the host has seen of every other request as it was.
pub proof fn lemma_delivery_touches_one_request<H, R, E>(
    log: Seq<(int, HandleCall<H, R>)>,
    request: int,
    completion: Completion<H, R, E>,
    other: int,
)
    ensures
        calls_of(deliver(log, request, completion), request) == calls_of(log, request)
            + completion.delivery(),
        other != request ==> calls_of(deliver(log, request, completion), other) == calls_of(
            log,
            other,
        ),
{
    let tagged = completion.delivery().map_values(|call: HandleCall<H, R>| (request, call));
    let own = |entry: (int, HandleCall<H, R>)| entry.0 == request;
    let others = |entry: (int, HandleCall<H, R>)| entry.0 == other;
    let call = |entry: (int, HandleCall<H, R>)| entry.1;
    assert(tagged =~= Seq::<(int, HandleCall<H, R>)>::empty().push(tagged[0]));
    reveal_with_fuel(Seq::filter, 2);
    assert(tagged.filter(own) =~= tagged);
    Seq::filter_distributes_over_add(log, tagged, own);
    assert((log.filter(own) + tagged).map_values(call) =~= log.filter(own).map_values(call)
        + completion.delivery());
    if other != request {
        assert(tagged.filter(others) =~= Seq::<(int, HandleCall<H, R>)>::empty());
        Seq::filter_distributes_over_add(log, tagged, others);
        assert((log.filter(others) + tagged.filter(others)).map_values(call) =~= log.filter(
            others,
        ).map_values(call));
    }
}

/// Two requests in flight at the same time: whichever completes first, the
/// host sees of each request exactly the one call that its own outcome asks
/// for, on top of what it had seen of that request before.
pub proof fn lemma_overlapping_requests_end_independently<M, H, R, E>(
    log: Seq<(int, HandleCall<H, R>)>,
    a: int,
    request_a: HostRequestView<M, H>,
    fetched_a: Result<Vec<R>, E>,
    b: int,
    request_b: HostRequestView<M, H>,
    fetched_b: Result<Vec<R>, E>,
)
    requires
        a != b,
    ensures
        ({
            let end_a = outcome(request_a, fetched_a);
            let end_b = outcome(request_b, fetched_b);
            let a_first = deliver(deliver(log, a, end_a), b, end_b);
            let b_first = deliver(deliver(log, b, end_b), a, end_a);
            &&& end_a.delivery().len() == 1
            &&& end_b.delivery().len() == 1
            &&& calls_of(a_first, a) == calls_of(log, a) + end_a.delivery()
            &&& calls_of(a_first, b) == calls_of(log, b) + end_b.delivery()
            &&& calls_of(b_first, a) == calls_of(a_first, a)
            &&& calls_of(b_first, b) == calls_of(a_first, b)
        }),
{
    let end_a = outcome(request_a, fetched_a);
    let end_b = outcome(request_b, fetched_b);
    lemma_delivery_touches_one_request(log, a, end_a, b);
    lemma_delivery_touches_one_request(deliver(log, a, end_a), b, end_b, a);
    lemma_delivery_touches_one_request(log, b, end_b, a);
    lemma_delivery_touches_one_request(deliver(log, b, end_b), a, end_a, b);
}

} // verus!
