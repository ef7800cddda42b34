//! What holds of every run of the delivery protocol.
//!
//! A run is a request together with the events that the caller hands to it,
//! in order. The laws below are stated over [`after`], the request once all
//! events of a run are taken, and [`directive_at`], what the caller is told on
//! each of them.

use vstd::prelude::*;
use solana_sdk::signature::Signature;
use crate::delivery::{Action, Delivery, Directive, Event, Miner, Notice, Phase, SendError};
use crate::delivery::plain;
use crate::policy::{ComputeBudget, balance_suffices, priority_fee_of};
use crate::status::{ConfirmationLevel, ConfirmationOutcome, StatusReport};
use crate::status::{lemma_open_response, outcome_of, response_outcome};

verus! {

/// The request after it has taken all of `events`, in order.
pub open spec fn after(start: Delivery, events: Seq<Event>) -> Delivery
    decreases events.len(),
{
    if events.len() == 0 {
        start
    } else {
        after(start, events.drop_last()).next(events.last()).0
    }
}

/// What the caller is told on event number `k` of a run.
pub open spec fn directive_at(start: Delivery, events: Seq<Event>, k: int) -> Directive
    recommends
        0 <= k < events.len(),
{
    after(start, events.take(k)).next(events[k]).1
}

/// Whether the caller is told to submit on event number `k` of a run.
pub open spec fn submits_at(start: Delivery, events: Seq<Event>, k: int) -> bool {
    directive_at(start, events, k).action is Submit
}

/// Whether the caller is told to query a status on event number `k` of a run.
pub open spec fn queries_status_at(start: Delivery, events: Seq<Event>, k: int) -> bool {
    directive_at(start, events, k).action is QueryStatus
}

/// A run in which every event is a result of the action that the request was
/// waiting for.
pub open spec fn all_answered(start: Delivery, events: Seq<Event>) -> bool {
    forall|k: int| 0 <= k < events.len() ==> #[trigger] after(start, events.take(k)).answers(events[k])
}

/// The most results that a request can still take before it ends: one for
/// each query and for the assembly that are still to come, and for each
/// attempt that is left one for the submission and one for each of its
/// status queries.
pub open spec fn calls_left(request: Delivery) -> int {
    let per_attempt = request.settings.confirm_retries + 1;
    let attempts = request.settings.gateway_retries + 1;
    match request.phase {
        Phase::CheckingBalance => 3 + attempts * per_attempt,
        Phase::ResolvingFee => 2 + attempts * per_attempt,
        Phase::Assembling { .. } => 1 + attempts * per_attempt,
        Phase::Submitting { attempt, .. } => (attempts - attempt) * per_attempt,
        Phase::Confirming { attempt, check, .. } => (attempts - attempt - 1) * per_attempt + (
        request.settings.confirm_retries - check),
        Phase::Done(_) => 0,
    }
}

/// Whether an event is a status response with a terminal entry.
pub open spec fn settles(event: Event) -> bool {
    match event {
        Event::Statuses(statuses) => response_outcome(statuses@).is_terminal(),
        _ => false,
    }
}

/// Whether a request is in the submission loop or has left it with its
/// attempts spent.
pub open spec fn in_loop(request: Delivery) -> bool {
    match request.phase {
        Phase::Submitting { .. } => true,
        Phase::Confirming { .. } => true,
        Phase::Done(Err(SendError::MaxRetriesExceeded)) => true,
        _ => false,
    }
}

/// A run in which every submission fails in transport.
pub open spec fn transport_always_fails(events: Seq<Event>) -> bool {
    forall|k: int| 0 <= k < events.len() ==> events[k] == Event::SubmitFailed
}

/// Well-formedness is kept by every step, and so by every run.
pub proof fn law_wf_is_kept(start: Delivery, events: Seq<Event>)
    requires
        start.wf(),
    ensures
        after(start, events).wf(),
    decreases events.len(),
{
    if events.len() > 0 {
        law_wf_is_kept(start, events.drop_last());
    }
}

/// The observed difficulty decides nothing: the same request with another
/// difficulty takes every event in the same way.
pub proof fn law_difficulty_is_not_read(request: Delivery, best_diff: u32, event: Event)
    ensures
        request.with_difficulty(best_diff).next(event) == ((
            request.next(event).0.with_difficulty(best_diff),
            request.next(event).1,
        )),
{
}

/// A failed status query ends the attempt: the request is resubmitted after
/// the pause, or ends where no attempt is left, whatever status queries
/// remain.
pub proof fn law_failed_status_query_resubmits(
    request: Delivery,
    price: u64,
    attempt: u64,
    check: u64,
    signature: Signature,
)
    requires
        request.phase == (Phase::Confirming { price, attempt, check, signature }),
    ensures
        request.next(Event::StatusQueryFailed) == request.retry(
            price,
            attempt,
            Notice::StatusQueryError,
        ),
        request.next(Event::StatusQueryFailed).1.action !is QueryStatus,
{
}

/// A request that has ended stays as it is: whatever events follow, its
/// outcome does not change and the caller is told to stop, so that no network
/// call follows the end.
pub proof fn law_finished_is_final(start: Delivery, events: Seq<Event>)
    requires
        start.finished(),
    ensures
        after(start, events) == start,
        forall|k: int|
            0 <= k < events.len() ==> #[trigger] directive_at(start, events, k) == plain(
                Action::Finish,
            ),
    decreases events.len(),
{
    if events.len() > 0 {
        law_finished_is_final(start, events.drop_last());
    }
    assert forall|k: int| 0 <= k < events.len() implies #[trigger] directive_at(start, events, k)
        == plain(Action::Finish) by {
        law_finished_is_final(start, events.take(k));
    }
}

/// Every result that the request was waiting for brings its end nearer, and
/// an event that is no such result changes nothing.
pub proof fn law_every_answer_counts(request: Delivery, event: Event)
    requires
        request.wf(),
    ensures
        0 <= calls_left(request),
        request.answers(event) ==> calls_left(request.next(event).0) < calls_left(request),
        !request.answers(event) ==> request.next(event) == request.stay(),
        request.finished() <==> calls_left(request) == 0,
{
    let per_attempt = request.settings.confirm_retries + 1;
    let attempts = request.settings.gateway_retries + 1;
    assert(0 <= attempts * per_attempt) by (nonlinear_arith)
        requires
            0 <= attempts,
            0 <= per_attempt,
    ;
    match request.phase {
        Phase::Submitting { attempt, .. } => {
            let left = attempts - attempt;
            assert(left * per_attempt == (left - 1) * per_attempt + per_attempt) by (nonlinear_arith);
            assert(0 <= (left - 1) * per_attempt) by (nonlinear_arith)
                requires
                    1 <= left,
                    0 <= per_attempt,
            ;
        },
        Phase::Confirming { attempt, .. } => {
            let left = attempts - attempt - 1;
            assert(0 <= left * per_attempt) by (nonlinear_arith)
                requires
                    0 <= left,
                    0 <= per_attempt,
            ;
            if left > 0 {
                assert(left * per_attempt == (left - 1) * per_attempt + per_attempt)
                    by (nonlinear_arith);
            }
        },
        _ => {},
    }
}

/// A request ends after a bounded number of calls: a run in which every
/// event is a result that the request was waiting for is no longer than the
/// calls that were left when it began, which for a fresh request are the
/// balance query, the fee query, the assembly, and for each of the
/// `gateway_retries + 1` attempts one submission and `confirm_retries`
/// status queries.
pub proof fn law_runs_are_bounded(start: Delivery, events: Seq<Event>)
    requires
        start.wf(),
        all_answered(start, events),
    ensures
        0 <= calls_left(after(start, events)),
        calls_left(after(start, events)) + events.len() <= calls_left(start),
        events.len() <= calls_left(start),
    decreases events.len(),
{
    if events.len() == 0 {
        law_every_answer_counts(start, Event::Assembled);
    } else {
        let earlier = events.drop_last();
        assert forall|k: int| 0 <= k < earlier.len() implies #[trigger] after(
            start,
            earlier.take(k),
        ).answers(earlier[k]) by {
            assert(earlier.take(k) =~= events.take(k));
            assert(after(start, events.take(k)).answers(events[k]));
        }
        law_runs_are_bounded(start, earlier);
        law_wf_is_kept(start, earlier);
        assert(events.take(events.len() - 1) =~= earlier);
        assert(after(start, events.take(events.len() - 1)).answers(events[events.len() - 1]));
        law_every_answer_counts(after(start, earlier), events.last());
        law_wf_is_kept(start, events);
        law_every_answer_counts(after(start, events), Event::Assembled);
    }
}

/// A run can be cut in two: the request after the whole run is the request
/// after the second part, begun where the first part ended.
pub proof fn law_runs_compose(start: Delivery, first: Seq<Event>, second: Seq<Event>)
    ensures
        after(start, first + second) == after(after(start, first), second),
    decreases second.len(),
{
    if second.len() == 0 {
        assert(first + second =~= first);
    } else {
        law_runs_compose(start, first, second.drop_last());
        assert((first + second).drop_last() =~= first + second.drop_last());
        assert((first + second).last() == second.last());
    }
}

/// A balance at or below the minimum ends a fresh request at once with
/// `InsufficientBalance`: on no event of the run, the balance reading or any
/// later one, is the caller told to submit or to do anything but stop.
pub proof fn law_low_balance_never_submits(
    miner: Miner,
    compute_budget: ComputeBudget,
    skip_confirm: bool,
    best_diff: u32,
    balance: u64,
    events: Seq<Event>,
)
    requires
        balance <= miner.settings.min_balance,
        events.len() > 0,
        events[0] == Event::Balance(Some(balance)),
    ensures
        after(miner.fresh(compute_budget, skip_confirm, best_diff), events).phase == Phase::Done(
            Err(SendError::InsufficientBalance { balance }),
        ),
        forall|k: int|
            0 <= k < events.len() ==> #[trigger] directive_at(
                miner.fresh(compute_budget, skip_confirm, best_diff),
                events,
                k,
            ).action == Action::Finish,
        forall|k: int|
            0 <= k < events.len() ==> !#[trigger] submits_at(
                miner.fresh(compute_budget, skip_confirm, best_diff),
                events,
                k,
            ),
{
    let start = miner.fresh(compute_budget, skip_confirm, best_diff);
    let head = seq![events[0]];
    let ended = start.next(events[0]).0;
    assert(after(start, head) == ended) by {
        assert(head.drop_last() =~= Seq::<Event>::empty());
        assert(after(start, head.drop_last()) == start);
    }
    assert(ended.finished());
    assert forall|k: int| 0 <= k <= events.len() implies #[trigger] after(start, events.take(k))
        == (if k == 0 {
        start
    } else {
        ended
    }) by {
        if k > 0 {
            let tail = events.take(k).skip(1);
            assert(events.take(k) =~= head + tail);
            law_runs_compose(start, head, tail);
            law_finished_is_final(ended, tail);
        }
    }
    assert(events.take(events.len() as int) =~= events);
    assert forall|k: int| 0 <= k < events.len() implies #[trigger] directive_at(start, events, k).action
        == Action::Finish by {
        assert(after(start, events.take(k)) == (if k == 0 {
            start
        } else {
            ended
        }));
    }
    assert forall|k: int| 0 <= k < events.len() implies !#[trigger] submits_at(start, events, k) by {
        assert(directive_at(start, events, k).action == Action::Finish);
    }
}

/// The price that a fresh request is assembled with, once its balance
/// suffices: the oracle's answer where a dynamic endpoint is configured,
/// which is then asked first; else the static fee; else zero.
pub proof fn law_priority_fee(
    miner: Miner,
    compute_budget: ComputeBudget,
    skip_confirm: bool,
    best_diff: u32,
    balance: Option<u64>,
    oracle: u64,
)
    requires
        balance_suffices(balance, miner.settings.min_balance),
    ensures
        ({
            let start = miner.fresh(compute_budget, skip_confirm, best_diff);
            let (checked, first) = start.next(Event::Balance(balance));
            let (resolved, second) = checked.next(Event::OracleFee(oracle));
            let assemble = Action::Assemble {
                compute_limit: compute_budget.limit(),
                price: priority_fee_of(miner.dynamic_fee, miner.priority_fee, oracle),
            };
            if miner.dynamic_fee {
                &&& first.action == Action::QueryFee
                &&& second.action == assemble
                &&& resolved.phase == (Phase::Assembling { price: oracle })
            } else {
                &&& first.action == assemble
                &&& checked.phase == (Phase::Assembling {
                    price: match miner.priority_fee {
                        Some(fee) => fee,
                        None => 0,
                    },
                })
            }
        }),
{
}

/// A request that skips confirmation never succeeds: an accepted submission
/// ends it with `SkipConfirmPolicy`, without a status query, and no run of it
/// ends in `Ok`.
pub proof fn law_skip_confirm_never_succeeds(start: Delivery, events: Seq<Event>)
    requires
        start.wf(),
        start.skip_confirm,
    ensures
        after(start, events).skip_confirm,
        !after(start, events).succeeded(),
        forall|k: int| 0 <= k < events.len() ==> !#[trigger] queries_status_at(start, events, k),
        forall|signature: Signature|
            start.phase is Submitting ==> #[trigger] start.next(Event::Accepted(signature)) == ((
                start.at(Phase::Done(Err(SendError::SkipConfirmPolicy))),
                plain(Action::Finish),
            )),
    decreases events.len(),
{
    law_wf_is_kept(start, events);
    if events.len() > 0 {
        law_skip_confirm_never_succeeds(start, events.drop_last());
    }
    assert forall|k: int| 0 <= k < events.len() implies !#[trigger] queries_status_at(
        start,
        events,
        k,
    ) by {
        law_wf_is_kept(start, events.take(k));
        law_skip_confirm_never_succeeds(start, events.take(k));
    }
}

/// A status response settles a request that awaits one exactly as its first
/// terminal entry says. The request succeeds, with the accepted identifier, if
/// and only if that entry is `Confirmed` or `Finalized`; it fails if and only
/// if it is an on-chain error; a response without a terminal entry, such as
/// one of `Processed` entries only, leaves the request open.
pub proof fn law_only_terminal_statuses_settle(
    request: Delivery,
    price: u64,
    attempt: u64,
    check: u64,
    signature: Signature,
    statuses: Vec<Option<StatusReport>>,
)
    requires
        request.phase == (Phase::Confirming { price, attempt, check, signature }),
    ensures
        ({
            let settled = request.next(Event::Statuses(statuses)).0;
            let outcome = response_outcome(statuses@);
            &&& outcome.is_success() <==> settled.phase == Phase::Done(Ok(signature))
            &&& outcome.is_success() <==> settled.succeeded()
            &&& outcome.is_failure() <==> settled.failed_on_chain()
            &&& !outcome.is_terminal() ==> settled.phase is Confirming || settled.phase
                is Submitting || settled.phase == Phase::Done(
                Err(SendError::MaxRetriesExceeded),
            )
        }),
{
}

/// `Processed` never ends the confirmation loop: where every entry of the
/// response is a `Processed` report without error, the request does not
/// succeed and does not fail on chain.
pub proof fn law_processed_is_not_terminal(
    request: Delivery,
    price: u64,
    attempt: u64,
    check: u64,
    signature: Signature,
    statuses: Vec<Option<StatusReport>>,
)
    requires
        request.phase == (Phase::Confirming { price, attempt, check, signature }),
        forall|i: int|
            0 <= i < statuses@.len() ==> #[trigger] statuses@[i] == Some(
                StatusReport { err: None, confirmation: Some(ConfirmationLevel::Processed) },
            ),
    ensures
        !response_outcome(statuses@).is_terminal(),
        !request.next(Event::Statuses(statuses)).0.succeeded(),
        !request.next(Event::Statuses(statuses)).0.failed_on_chain(),
{
    lemma_open_response(statuses@);
    assert forall|i: int| 0 <= i < statuses@.len() implies !(#[trigger] outcome_of(
        statuses@[i],
    ).is_terminal()) by {
        assert(statuses@[i] == Some(
            StatusReport { err: None, confirmation: Some(ConfirmationLevel::Processed) },
        ));
    }
    law_only_terminal_statuses_settle(request, price, attempt, check, signature, statuses);
}

/// A request that waits for confirmation and never sees a terminal status
/// stays in the submission loop until its attempts are spent: whatever else
/// happens, be every status `Processed`, unknown or missing, every query or
/// submission failed, the request neither succeeds nor fails on chain, and
/// where it has ended, it has ended with `MaxRetriesExceeded`.
pub proof fn law_open_statuses_exhaust_budget(start: Delivery, events: Seq<Event>)
    requires
        start.wf(),
        !start.skip_confirm,
        in_loop(start),
        forall|k: int| 0 <= k < events.len() ==> !settles(#[trigger] events[k]),
    ensures
        !after(start, events).skip_confirm,
        in_loop(after(start, events)),
        !after(start, events).succeeded(),
        !after(start, events).failed_on_chain(),
        after(start, events).finished() ==> after(start, events).phase == Phase::Done(
            Err(SendError::MaxRetriesExceeded),
        ),
    decreases events.len(),
{
    if events.len() > 0 {
        let earlier = events.drop_last();
        assert forall|k: int| 0 <= k < earlier.len() implies !settles(#[trigger] earlier[k]) by {
            assert(earlier[k] == events[k]);
        }
        law_open_statuses_exhaust_budget(start, earlier);
        assert(!settles(events[events.len() - 1]));
    }
}

/// With a transport that always fails, a request whose submission number
/// `attempt` is out is resubmitted after each failure until the budget is
/// spent: after `j` failures submission number `attempt + j` is out, for every
/// `j` up to `gateway_retries - attempt`.
pub proof fn law_failing_transport_resubmits(
    request: Delivery,
    price: u64,
    attempt: u64,
    events: Seq<Event>,
)
    requires
        request.phase == (Phase::Submitting { price, attempt }),
        attempt <= request.settings.gateway_retries,
        transport_always_fails(events),
        attempt + events.len() <= request.settings.gateway_retries,
    ensures
        after(request, events) == request.at(
            Phase::Submitting { price, attempt: (attempt + events.len()) as u64 },
        ),
        forall|k: int|
            0 <= k < events.len() ==> #[trigger] directive_at(request, events, k) == (Directive {
                notice: Notice::SubmitError,
                pause_ms: request.settings.gateway_delay_ms,
                action: Action::Submit { attempt: (attempt + k + 1) as u64, price },
            }),
    decreases events.len(),
{
    if events.len() > 0 {
        law_failing_transport_resubmits(request, price, attempt, events.drop_last());
    }
    assert forall|k: int| 0 <= k < events.len() implies #[trigger] directive_at(request, events, k)
        == (Directive {
        notice: Notice::SubmitError,
        pause_ms: request.settings.gateway_delay_ms,
        action: Action::Submit { attempt: (attempt + k + 1) as u64, price },
    }) by {
        law_failing_transport_resubmits(request, price, attempt, events.take(k));
    }
}

/// With a transport that always fails, a fresh submission loop makes exactly
/// `gateway_retries + 1` attempts and then ends with `MaxRetriesExceeded`:
/// the first attempt is out when the run begins, each of the first
/// `gateway_retries` failures is answered with a resubmission, the last with
/// the end, and on no event is a status queried.
pub proof fn law_failing_transport_exhausts_budget(request: Delivery, price: u64, events: Seq<Event>)
    requires
        request.phase == (Phase::Submitting { price, attempt: 0 }),
        transport_always_fails(events),
        events.len() == request.settings.gateway_retries + 1,
    ensures
        after(request, events).phase == Phase::Done(Err(SendError::MaxRetriesExceeded)),
        forall|k: int|
            0 <= k < events.len() - 1 ==> #[trigger] directive_at(request, events, k).action == (
            Action::Submit { attempt: (k + 1) as u64, price }),
        directive_at(request, events, events.len() - 1).action == Action::Finish,
        forall|k: int| 0 <= k < events.len() ==> !#[trigger] queries_status_at(request, events, k),
{
    let failures = events.drop_last();
    law_failing_transport_resubmits(request, price, 0, failures);
    assert(events.take(events.len() - 1) =~= failures);
    assert forall|k: int| 0 <= k < events.len() - 1 implies #[trigger] directive_at(
        request,
        events,
        k,
    ).action == (Action::Submit { attempt: (k + 1) as u64, price }) by {
        assert(events.take(k) =~= failures.take(k));
        assert(directive_at(request, events, k) == directive_at(request, failures, k));
    }
}

/// An on-chain error in a status response ends the request at once, whatever
/// attempts and status queries remain: the outcome is the error, with its
/// text, and the caller is told to stop without pause.
pub proof fn law_on_chain_error_is_final(
    request: Delivery,
    price: u64,
    attempt: u64,
    check: u64,
    signature: Signature,
    statuses: Vec<Option<StatusReport>>,
    detail: String,
)
    requires
        request.phase == (Phase::Confirming { price, attempt, check, signature }),
        response_outcome(statuses@) == ConfirmationOutcome::OnChainError(detail),
    ensures
        request.next(Event::Statuses(statuses)) == ((
            request.at(Phase::Done(Err(SendError::OnChainError(detail)))),
            plain(Action::Finish),
        )),
        request.next(Event::Statuses(statuses)).0.finished(),
{
}

} // verus!
