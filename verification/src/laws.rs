//! What holds of the ledger whatever requests it has served.

use crate::account::AccountHash;
use crate::error::WorkflowError;
use crate::model::{replay, LedgerView, Request};
use crate::state_table::{is_allowed, is_terminal};
use crate::states::{APPROVED, CANCELLED, DRAFT, ESCALATED, PENDING_REVIEW, REJECTED};
use crate::uint::{lemma_from_nat, u256_max, U256};
use crate::workflow::TransitionRecord;
use vstd::prelude::*;

verus! {

/// The transition graph has seven edges and no other: a move is allowed
/// exactly when it is one of them.
pub proof fn lemma_allow_list(from: u8, to: u8)
    ensures
        is_allowed(from, to) <==> {
            ||| (from, to) == (DRAFT, PENDING_REVIEW)
            ||| (from, to) == (DRAFT, CANCELLED)
            ||| (from, to) == (PENDING_REVIEW, APPROVED)
            ||| (from, to) == (PENDING_REVIEW, REJECTED)
            ||| (from, to) == (PENDING_REVIEW, ESCALATED)
            ||| (from, to) == (ESCALATED, APPROVED)
            ||| (from, to) == (ESCALATED, REJECTED)
        },
{
}

/// No move leaves a terminal state, none leads back to a draft or stays in
/// place, and none touches a state from 100 up.
pub proof fn lemma_no_other_moves(from: u8, to: u8)
    ensures
        is_terminal(from) ==> !is_allowed(from, to),
        from == to ==> !is_allowed(from, to),
        to == DRAFT ==> !is_allowed(from, to),
        from >= 100 || to >= 100 ==> !is_allowed(from, to),
{
}

/// A sequence of moves that leads somewhere starts from a draft, each of its
/// moves starts where the move before it ended, and each is an edge of the
/// transition graph.
pub proof fn lemma_replay_is_a_chain(trail: Seq<TransitionRecord>)
    requires
        replay(trail) is Some,
    ensures
        trail.len() > 0 ==> trail[0].from_state == DRAFT,
        trail.len() > 0 ==> replay(trail) == Some(trail.last().to_state),
        forall|i: int| 0 <= i < trail.len() ==> is_allowed(trail[i].from_state, trail[i].to_state),
        forall|i: int| 0 <= i < trail.len() - 1 ==> trail[i].to_state == trail[i + 1].from_state,
    decreases trail.len(),
{
    if trail.len() > 0 {
        let before = trail.drop_last();
        lemma_replay_is_a_chain(before);
        assert forall|i: int| 0 <= i < trail.len() implies is_allowed(
            trail[i].from_state,
            trail[i].to_state,
        ) by {
            if i < before.len() {
                assert(trail[i] == before[i]);
            }
        }
        assert forall|i: int| 0 <= i < trail.len() - 1 implies trail[i].to_state == trail[i
            + 1].from_state by {
            assert(trail[i] == before[i]);
            if i + 1 < before.len() {
                assert(trail[i + 1] == before[i + 1]);
            }
        }
        if before.len() > 0 {
            assert(trail[0] == before[0]);
        }
    }
}

/// The empty ledger is a ledger.
pub proof fn lemma_empty_inv(base: nat)
    requires
        base <= u256_max(),
    ensures
        LedgerView::empty(base).inv(),
{
}

/// A request leaves a ledger a ledger. It removes no workflow, and the
/// counter does not go back.
pub proof fn lemma_step_inv(ledger: LedgerView, request: Request)
    requires
        ledger.inv(),
    ensures
        ledger.step(request).inv(),
        ledger.step(request).base == ledger.base,
        ledger.step(request).count() >= ledger.count(),
        ledger.step(request).count() <= ledger.count() + 1,
{
    let next = ledger.step(request);
    match request {
        Request::Create { template_hash, data_hash, caller, timestamp } => {
            if ledger.can_create() {
                lemma_from_nat(ledger.count() + 1);
                assert(replay(Seq::<TransitionRecord>::empty()) == Some(DRAFT));
                assert forall|i: int| 0 <= i < next.workflows.len() implies {
                    &&& (#[trigger] next.workflows[i]).id@ == next.base + i + 1
                    &&& next.workflows[i].is_completed == is_terminal(
                        next.workflows[i].current_state,
                    )
                    &&& replay(next.histories[i]) == Some(next.workflows[i].current_state)
                } by {
                    if i < ledger.workflows.len() {
                        assert(next.workflows[i] == ledger.workflows[i]);
                        assert(next.histories[i] == ledger.histories[i]);
                    }
                }
            }
        },
        Request::Transition {
            workflow_id,
            to_state,
            actor_role,
            comment_hash,
            caller,
            timestamp,
        } => {
            if ledger.transition_outcome(workflow_id@, to_state) is Ok {
                let slot = workflow_id@ - ledger.base - 1;
                let trail = ledger.histories[slot];
                let record = ledger.workflows[slot].record_of(
                    to_state,
                    actor_role,
                    comment_hash,
                    caller,
                    timestamp,
                );
                assert(trail.push(record).drop_last() == trail);
                assert forall|i: int| 0 <= i < next.workflows.len() implies {
                    &&& (#[trigger] next.workflows[i]).id@ == next.base + i + 1
                    &&& next.workflows[i].is_completed == is_terminal(
                        next.workflows[i].current_state,
                    )
                    &&& replay(next.histories[i]) == Some(next.workflows[i].current_state)
                } by {
                    if i != slot {
                        assert(next.workflows[i] == ledger.workflows[i]);
                        assert(next.histories[i] == ledger.histories[i]);
                    }
                }
            }
        },
    }
}

/// Any sequence of requests leaves a ledger a ledger, with every workflow
/// that it had.
pub proof fn lemma_run_inv(ledger: LedgerView, requests: Seq<Request>)
    requires
        ledger.inv(),
    ensures
        ledger.run(requests).inv(),
        ledger.run(requests).base == ledger.base,
        ledger.run(requests).count() >= ledger.count(),
        ledger.run(requests).count() <= ledger.count() + requests.len(),
    decreases requests.len(),
{
    if requests.len() > 0 {
        lemma_run_inv(ledger, requests.drop_last());
        lemma_step_inv(ledger.run(requests.drop_last()), requests.last());
    }
}

/// Whatever requests a ledger has served, the recorded moves of each of its
/// workflows lead from a draft to the state that the workflow is in.
pub proof fn lemma_history_reconstructs_state(ledger: LedgerView, requests: Seq<Request>, id: nat)
    requires
        ledger.inv(),
        ledger.run(requests).contains(id),
    ensures
        replay(ledger.run(requests).history(id)) == Some(
            ledger.run(requests).workflow(id).current_state,
        ),
{
    lemma_run_inv(ledger, requests);
    let end = ledger.run(requests);
    assert(end.workflows[id - end.base - 1].id@ == id);
}

/// A workflow has no recorded move exactly while it is a draft.
pub proof fn lemma_history_is_empty_while_draft(ledger: LedgerView, id: nat)
    requires
        ledger.inv(),
        ledger.contains(id),
    ensures
        ledger.history(id).len() == 0 <==> ledger.workflow(id).current_state == DRAFT,
{
    assert(ledger.workflows[id - ledger.base - 1].id@ == id);
    let trail = ledger.history(id);
    if trail.len() > 0 {
        lemma_replay_is_a_chain(trail);
        lemma_no_other_moves(trail.last().from_state, trail.last().to_state);
    }
}

/// Tells whether every request of the sequence asks for a new workflow.
pub open spec fn all_create(requests: Seq<Request>) -> bool {
    forall|k: int| 0 <= k < requests.len() ==> #[trigger] requests[k] is Create
}

/// Requests for new workflows are given consecutive identifiers: while the
/// counter is not exhausted, the request at place `k` of the sequence finds
/// the counter `k` above where it started, and so gets the identifier after
/// that. No identifier is skipped and none is given twice.
pub proof fn lemma_identifiers_are_consecutive(ledger: LedgerView, requests: Seq<Request>, k: nat)
    requires
        ledger.inv(),
        all_create(requests),
        ledger.count() + requests.len() <= u256_max(),
        k <= requests.len(),
    ensures
        ledger.run(requests.take(k as int)).count() == ledger.count() + k,
        k < requests.len() ==> ledger.run(requests.take(k as int + 1)) == ledger.run(
            requests.take(k as int),
        ).step(requests[k as int]),
        k < requests.len() ==> ledger.run(requests.take(k as int + 1)).contains(ledger.count() + k + 1),
        k < requests.len() ==> ledger.run(requests.take(k as int + 1)).workflow(
            ledger.count() + k + 1,
        ).id@ == ledger.count() + k + 1,
    decreases k,
{
    if k > 0 {
        lemma_identifiers_are_consecutive(ledger, requests, (k - 1) as nat);
        assert(requests.take(k as int).drop_last() == requests.take(k - 1));
        assert(requests.take(k as int).last() == requests[k - 1]);
    }
    if k < requests.len() {
        assert(requests.take(k as int + 1).drop_last() == requests.take(k as int));
        assert(requests.take(k as int + 1).last() == requests[k as int]);
        lemma_run_inv(ledger, requests.take(k as int));
        lemma_step_inv(ledger.run(requests.take(k as int)), requests[k as int]);
        lemma_from_nat(ledger.count() + k + 1);
    }
}

/// A completed workflow is frozen: whatever requests follow, its record
/// stays as it is, and every request to move it, to whatever state, fails
/// because it is completed.
pub proof fn lemma_completed_is_frozen(
    ledger: LedgerView,
    requests: Seq<Request>,
    id: nat,
    to_state: u8,
)
    requires
        ledger.inv(),
        ledger.contains(id),
        ledger.workflow(id).is_completed,
    ensures
        ledger.run(requests).contains(id),
        ledger.run(requests).workflow(id) == ledger.workflow(id),
        ledger.run(requests).history(id) == ledger.history(id),
        ledger.run(requests).transition_outcome(id, to_state) == Err::<(), WorkflowError>(
            WorkflowError::WorkflowAlreadyCompleted,
        ),
    decreases requests.len(),
{
    if requests.len() > 0 {
        let before = ledger.run(requests.drop_last());
        lemma_completed_is_frozen(ledger, requests.drop_last(), id, to_state);
        lemma_run_inv(ledger, requests.drop_last());
        match requests.last() {
            Request::Create { .. } => {},
            Request::Transition { workflow_id, to_state: asked, .. } => {
                if before.transition_outcome(workflow_id@, asked) is Ok {
                    assert(workflow_id@ != id);
                }
            },
        }
    }
}

/// A request to move an existing workflow is accepted exactly when the move
/// from its current state is an edge of the transition graph.
pub proof fn lemma_transition_accepted_iff_allowed(ledger: LedgerView, id: nat, to_state: u8)
    requires
        ledger.inv(),
        ledger.contains(id),
    ensures
        ledger.transition_outcome(id, to_state) is Ok <==> is_allowed(
            ledger.workflow(id).current_state,
            to_state,
        ),
{
    assert(ledger.workflows[id - ledger.base - 1].id@ == id);
}

/// A workflow that was just created reads back as a draft with the hashes
/// and the creator that were given, not completed, created and updated at
/// the same time, and with an empty history. The workflows that were there
/// stay as they were.
pub proof fn lemma_created_workflow_reads_back(
    ledger: LedgerView,
    template_hash: [u8; 32],
    data_hash: [u8; 32],
    caller: AccountHash,
    timestamp: u64,
)
    requires
        ledger.inv(),
        ledger.can_create(),
    ensures
        ({
            let next = ledger.step(Request::Create { template_hash, data_hash, caller, timestamp });
            let id = ledger.count() + 1;
            &&& next.count() == id
            &&& next.contains(id)
            &&& next.workflow(id).id@ == id
            &&& next.workflow(id).current_state == DRAFT
            &&& next.workflow(id).template_hash == template_hash
            &&& next.workflow(id).data_hash == data_hash
            &&& next.workflow(id).creator == caller
            &&& next.workflow(id).is_completed == false
            &&& next.workflow(id).created_at == timestamp
            &&& next.workflow(id).updated_at == timestamp
            &&& next.history(id) == Seq::<TransitionRecord>::empty()
            &&& forall|other: nat|
                ledger.contains(other) ==> next.contains(other) && next.workflow(other)
                    == ledger.workflow(other) && next.history(other) == ledger.history(other)
        }),
{
    lemma_from_nat(ledger.count() + 1);
}

/// A failed request to move a workflow changes nothing.
pub proof fn lemma_refused_transition_changes_nothing(
    ledger: LedgerView,
    workflow_id: U256,
    to_state: u8,
    actor_role: u64,
    comment_hash: [u8; 32],
    caller: AccountHash,
    timestamp: u64,
)
    requires
        ledger.transition_outcome(workflow_id@, to_state) is Err,
    ensures
        ledger.step(
            Request::Transition {
                workflow_id,
                to_state,
                actor_role,
                comment_hash,
                caller,
                timestamp,
            },
        ) == ledger,
{
}

/// An accepted request to move a workflow puts it in the requested state,
/// completes it exactly when that state is terminal, sets its time of
/// update, adds one record at the end of its history, and leaves every other
/// workflow as it was.
pub proof fn lemma_accepted_transition(
    ledger: LedgerView,
    workflow_id: U256,
    to_state: u8,
    actor_role: u64,
    comment_hash: [u8; 32],
    caller: AccountHash,
    timestamp: u64,
)
    requires
        ledger.inv(),
        ledger.transition_outcome(workflow_id@, to_state) is Ok,
    ensures
        ({
            let next = ledger.step(
                Request::Transition {
                    workflow_id,
                    to_state,
                    actor_role,
                    comment_hash,
                    caller,
                    timestamp,
                },
            );
            let id = workflow_id@;
            &&& next.count() == ledger.count()
            &&& next.workflow(id) == ledger.workflow(id).moved(to_state, timestamp)
            &&& next.workflow(id).current_state == to_state
            &&& next.workflow(id).is_completed == is_terminal(to_state)
            &&& next.workflow(id).updated_at == timestamp
            &&& next.workflow(id).created_at == ledger.workflow(id).created_at
            &&& next.history(id) == ledger.history(id).push(
                TransitionRecord {
                    from_state: ledger.workflow(id).current_state,
                    to_state,
                    actor: caller,
                    actor_role,
                    timestamp,
                    comment_hash,
                },
            )
            &&& forall|other: nat|
                ledger.contains(other) && other != id ==> next.workflow(other) == ledger.workflow(
                    other,
                ) && next.history(other) == ledger.history(other)
        }),
{
}

/// The time at which a request is made.
pub open spec fn request_time(request: Request) -> u64 {
    match request {
        Request::Create { timestamp, .. } => timestamp,
        Request::Transition { timestamp, .. } => timestamp,
    }
}

/// Tells whether no workflow of the ledger was updated before it was
/// created, or after `now`.
pub open spec fn times_in_order(ledger: LedgerView, now: u64) -> bool {
    forall|i: int|
        0 <= i < ledger.workflows.len() ==> (#[trigger] ledger.workflows[i]).created_at
            <= ledger.workflows[i].updated_at <= now
}

/// Tells whether the requests are made at times that do not go back,
/// starting at `start` or later.
pub open spec fn clock_moves_forward(requests: Seq<Request>, start: u64) -> bool {
    &&& forall|k: int| 0 <= k < requests.len() ==> start <= request_time(#[trigger] requests[k])
    &&& forall|j: int, k: int|
        0 <= j <= k < requests.len() ==> request_time(#[trigger] requests[j]) <= request_time(
            #[trigger] requests[k],
        )
}

/// The time of the last request, or `start` where there is none.
pub open spec fn time_after(requests: Seq<Request>, start: u64) -> u64 {
    if requests.len() == 0 {
        start
    } else {
        request_time(requests.last())
    }
}

/// Under a clock that does not go back, no workflow is ever updated before
/// it was created.
pub proof fn lemma_updates_follow_creation(ledger: LedgerView, requests: Seq<Request>, start: u64)
    requires
        ledger.inv(),
        times_in_order(ledger, start),
        clock_moves_forward(requests, start),
    ensures
        times_in_order(ledger.run(requests), time_after(requests, start)),
    decreases requests.len(),
{
    if requests.len() > 0 {
        let earlier = requests.drop_last();
        let before = ledger.run(earlier);
        let now = request_time(requests.last());
        assert forall|k: int| 0 <= k < earlier.len() implies start <= request_time(
            #[trigger] earlier[k],
        ) by {
            assert(earlier[k] == requests[k]);
        }
        assert forall|j: int, k: int| 0 <= j <= k < earlier.len() implies request_time(
            #[trigger] earlier[j],
        ) <= request_time(#[trigger] earlier[k]) by {
            assert(earlier[j] == requests[j]);
            assert(earlier[k] == requests[k]);
        }
        lemma_updates_follow_creation(ledger, earlier, start);
        lemma_run_inv(ledger, earlier);
        assert(time_after(earlier, start) <= now) by {
            assert(requests.last() == requests[requests.len() - 1]);
            if earlier.len() > 0 {
                assert(earlier.last() == requests[requests.len() - 2]);
            }
        }
        let next = before.step(requests.last());
        assert forall|i: int| 0 <= i < next.workflows.len() implies (
        #[trigger] next.workflows[i]).created_at <= next.workflows[i].updated_at <= now by {
            if i < before.workflows.len() {
                let kept = before.workflows[i];
                assert(kept.created_at <= kept.updated_at <= now);
            }
        }
    }
}

} // verus!
