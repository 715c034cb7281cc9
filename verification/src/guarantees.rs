//! What holds of every run of the machines, proved from their models.

use crate::batch::{
    advance, completed_count, failed_count, failures_of, in_flight, lemma_all_queued,
    lemma_in_flight_update, next_action, skipped_count, start, BatchAction, BatchEventModel,
    FailureModel, SchedulerModel, SlotModel,
};
use crate::fetch::{
    backoff_millis, init, is_resource_pack, pending, temp_name, transition, ActionModel,
    EventModel, FetcherModel, LookupModel, Phase,
};
use crate::mirror::synthesized_mirror;
use crate::models::ArtifactModel;
use crate::outcome::{CauseModel, OutcomeModel, SkipReason};
use crate::resolve::resolved_name;
use vstd::prelude::*;

verus! {

/// The state after a whole sequence of events.
pub open spec fn run(s: FetcherModel, events: Seq<EventModel>) -> FetcherModel
    decreases events.len(),
{
    if events.len() == 0 {
        s
    } else {
        transition(run(s, events.drop_last()), events.last())
    }
}

/// Whether two states are of the same artifact under the same policy.
pub open spec fn same_task(a: FetcherModel, b: FetcherModel) -> bool {
    &&& a.name == b.name
    &&& a.expected == b.expected
    &&& a.algorithm == b.algorithm
    &&& a.skip_hash == b.skip_hash
}

/// Whether the state says that content has been let through.
pub open spec fn holds_content(s: FetcherModel) -> bool {
    ||| s.phase == Phase::Finalizing
    ||| s.phase == Phase::ReadingMetadata
    ||| s.phase == Phase::Renaming
    ||| s.outcome matches Some(OutcomeModel::Completed { .. })
}

/// Whether the content that was let through, if any, was acceptable.
pub open spec fn vouched(s: FetcherModel) -> bool {
    holds_content(s) ==> s.accepts(s.digest)
}

/// The machine starts in a state it can be in.
pub proof fn lemma_init_wf(artifact: ArtifactModel, skip_hash: bool)
    ensures
        init(artifact, skip_hash).wf(),
        vouched(init(artifact, skip_hash)),
{
}

/// Whatever the event, the machine stays in a state it can be in, works on
/// the same artifact under the same policy, and has let through only
/// acceptable content.
pub proof fn lemma_transition_keeps(s: FetcherModel, e: EventModel)
    requires
        s.wf(),
    ensures
        transition(s, e).wf(),
        same_task(s, transition(s, e)),
        vouched(s) ==> vouched(transition(s, e)),
{
}

/// The same, for whole runs.
pub proof fn lemma_run_keeps(s: FetcherModel, events: Seq<EventModel>)
    requires
        s.wf(),
    ensures
        run(s, events).wf(),
        same_task(s, run(s, events)),
        vouched(s) ==> vouched(run(s, events)),
    decreases events.len(),
{
    if events.len() > 0 {
        lemma_run_keeps(s, events.drop_last());
        lemma_transition_keeps(run(s, events.drop_last()), events.last());
    }
}

/// An outcome, once reached, is final: no event changes a settled machine.
pub proof fn lemma_outcome_is_final(s: FetcherModel, e: EventModel)
    requires
        s.phase == Phase::Settled,
    ensures
        transition(s, e) == s,
{
}

/// An artifact is only ever completed with content whose digest was
/// acceptable: where verification is required, a digest that matches the
/// expected one. This holds whatever the driver reports, in whatever order.
pub proof fn lemma_completed_content_was_accepted(
    artifact: ArtifactModel,
    skip_hash: bool,
    events: Seq<EventModel>,
)
    ensures
        run(init(artifact, skip_hash), events).outcome matches Some(
            OutcomeModel::Completed { .. },
        ) ==> init(artifact, skip_hash).accepts(run(init(artifact, skip_hash), events).digest),
{
    lemma_init_wf(artifact, skip_hash);
    lemma_run_keeps(init(artifact, skip_hash), events);
}

/// Content whose digest is not acceptable never reaches its destination: the
/// machine does not ask to move it into place but asks for the temporary file
/// to be removed, either on the way to the next source or at the end.
pub proof fn lemma_rejected_content_is_discarded(s: FetcherModel, e: EventModel)
    requires
        s.wf(),
        s.phase == Phase::Downloading,
        e matches EventModel::Transferred(t) && !s.accepts(t.digest),
    ensures
        !(pending(transition(s, e)) is Finalize),
        match pending(transition(s, e)) {
            ActionModel::Backoff { temp, .. } => temp == s.temp,
            ActionModel::Settle { outcome, discard } => discard == Some(s.temp) && !(outcome
                is Completed),
            _ => false,
        },
{
}

/// Where the policy skips verification, content is let through whatever its
/// digest: unless its name shows a resource pack, the machine asks to move it
/// into place.
pub proof fn lemma_unverified_content_is_finalized(s: FetcherModel, e: EventModel)
    requires
        s.wf(),
        s.phase == Phase::Downloading,
        s.skip_hash,
        e is Transferred,
    ensures
        !is_resource_pack(transition(s, e).target) ==> pending(transition(s, e))
            == (ActionModel::Finalize { temp: s.temp, filename: transition(s, e).target }),
        is_resource_pack(transition(s, e).target) ==> transition(s, e).outcome == Some(
            OutcomeModel::Skipped(SkipReason::ResourcePack),
        ),
{
}

/// Fetching again what was fetched before does nothing: when a later run of
/// the same artifact under the same policy asks about the file name under
/// which an earlier run completed, and the file is still there with the
/// content that run let through, the later run settles as skipped, and what
/// it asks next is no transfer.
pub proof fn lemma_completed_artifact_is_skipped(
    artifact: ArtifactModel,
    skip_hash: bool,
    earlier: Seq<EventModel>,
    later: Seq<EventModel>,
)
    requires
        run(init(artifact, skip_hash), earlier).outcome matches Some(
            OutcomeModel::Completed { filename, .. },
        ) && pending(run(init(artifact, skip_hash), later)) matches ActionModel::Probe {
            filename: asked,
            ..
        } && asked == filename,
    ensures
        ({
            let first = run(init(artifact, skip_hash), earlier);
            let second = run(init(artifact, skip_hash), later);
            let answered = transition(
                second,
                EventModel::Existing { present: true, digest: first.digest },
            );
            &&& answered.outcome == Some(OutcomeModel::Skipped(SkipReason::AlreadyPresent))
            &&& pending(answered) == (ActionModel::Settle {
                outcome: OutcomeModel::Skipped(SkipReason::AlreadyPresent),
                discard: None,
            })
        }),
{
    let start = init(artifact, skip_hash);
    lemma_init_wf(artifact, skip_hash);
    lemma_run_keeps(start, earlier);
    lemma_run_keeps(start, later);
}

/// The simplest case of the above: an artifact that was completed under its
/// placeholder name is skipped by the very first question of the next run.
pub proof fn lemma_second_run_skips(
    artifact: ArtifactModel,
    skip_hash: bool,
    earlier: Seq<EventModel>,
)
    requires
        run(init(artifact, skip_hash), earlier).outcome matches Some(
            OutcomeModel::Completed { filename, .. },
        ) && filename == artifact.file_name,
    ensures
        transition(
            init(artifact, skip_hash),
            EventModel::Existing {
                present: true,
                digest: run(init(artifact, skip_hash), earlier).digest,
            },
        ).outcome == Some(OutcomeModel::Skipped(SkipReason::AlreadyPresent)),
{
    lemma_completed_artifact_is_skipped(artifact, skip_hash, earlier, Seq::empty());
}

/// A failed metadata lookup brings in the fallback mirror: whatever went
/// wrong, so long as the lookup did not name the file and a mirror can be
/// built from the endpoint's location, the mirror is asked first and the
/// sources as they were come after it.
pub proof fn lemma_failed_lookup_prefers_the_mirror(s: FetcherModel, result: LookupModel)
    requires
        s.wf(),
        s.phase == Phase::Lookup,
        !(result is Named),
        synthesized_mirror(s.sources[0]) is Some,
    ensures
        ({
            let after = transition(s, EventModel::Lookup(result));
            let mirror = synthesized_mirror(s.sources[0])->0;
            &&& after.sources == seq![mirror] + s.sources
            &&& pending(after) == (ActionModel::Download {
                url: mirror,
                temp: temp_name(s.target),
                algorithm: s.wanted(),
            })
        }),
{
}

/// Whether event `e` reports that the source being tried in state `s` failed:
/// by a transport error, or by content that is not acceptable.
pub open spec fn attempt_fails(s: FetcherModel, e: EventModel) -> bool {
    match e {
        EventModel::TransferFailed(_) => true,
        EventModel::Transferred(t) => !s.accepts(t.digest) && !is_resource_pack(
            if s.resolved {
                s.target
            } else {
                match resolved_name(t.disposition, t.final_url) {
                    Some(name) => name,
                    None => s.target,
                }
            },
        ),
        _ => false,
    }
}

/// The state after one more attempt was made and reported: the delay before
/// it, if one was pending, has passed.
pub open spec fn retry(s: FetcherModel, report: EventModel) -> FetcherModel {
    transition(transition(s, EventModel::Waited), report)
}

/// The state after a series of attempts, each reported in turn.
pub open spec fn after_attempts(s: FetcherModel, reports: Seq<EventModel>) -> FetcherModel
    decreases reports.len(),
{
    if reports.len() == 0 {
        s
    } else {
        retry(after_attempts(s, reports.drop_last()), reports.last())
    }
}

/// Whether every one of the reports tells of a failed attempt.
pub open spec fn all_fail(s: FetcherModel, reports: Seq<EventModel>) -> bool
    decreases reports.len(),
{
    if reports.len() == 0 {
        true
    } else {
        let before = after_attempts(s, reports.drop_last());
        all_fail(s, reports.drop_last()) && attempt_fails(
            transition(before, EventModel::Waited),
            reports.last(),
        )
    }
}

/// How many delays a series of attempts asked for: one each time the machine
/// came to wait.
pub open spec fn delays(s: FetcherModel, reports: Seq<EventModel>) -> nat
    decreases reports.len(),
{
    if reports.len() == 0 {
        0
    } else {
        delays(s, reports.drop_last()) + if after_attempts(s, reports).phase == Phase::Waiting {
            1nat
        } else {
            0nat
        }
    }
}

/// While sources remain, each failure moves the machine on to the next source
/// after one delay, which grows by half a second with each source: after `k`
/// failures it waits for source `k`, has asked for exactly `k` delays, and the
/// temporary file is to be removed before the wait.
pub proof fn lemma_failures_fall_back(s: FetcherModel, reports: Seq<EventModel>)
    requires
        s.wf(),
        s.phase == Phase::Downloading,
        all_fail(s, reports),
        reports.len() > 0,
        s.attempt + reports.len() < s.sources.len(),
    ensures
        after_attempts(s, reports).phase == Phase::Waiting,
        after_attempts(s, reports).attempt == s.attempt + reports.len(),
        after_attempts(s, reports).sources == s.sources,
        after_attempts(s, reports).temp == s.temp,
        after_attempts(s, reports).wf(),
        same_task(s, after_attempts(s, reports)),
        delays(s, reports) == reports.len(),
        pending(after_attempts(s, reports)) == (ActionModel::Backoff {
            millis: backoff_millis(s.attempt + reports.len()),
            temp: s.temp,
        }),
    decreases reports.len(),
{
    if reports.len() > 1 {
        lemma_failures_fall_back(s, reports.drop_last());
    } else {
        assert(after_attempts(s, reports.drop_last()) == s);
        assert(delays(s, reports.drop_last()) == 0);
    }
}

/// After failures that left sources to try, a transfer of acceptable content
/// that is no resource pack ends the attempts: the machine asks to move the
/// content into place, having asked for as many delays as there were
/// failures.
pub proof fn lemma_success_after_failures(
    s: FetcherModel,
    reports: Seq<EventModel>,
    success: EventModel,
)
    requires
        s.wf(),
        s.phase == Phase::Downloading,
        all_fail(s, reports),
        s.attempt + reports.len() < s.sources.len(),
        success matches EventModel::Transferred(t) && s.accepts(t.digest),
        !is_resource_pack(after_attempts(s, reports.push(success)).target),
    ensures
        after_attempts(s, reports.push(success)).phase == Phase::Finalizing,
        delays(s, reports.push(success)) == reports.len(),
        pending(after_attempts(s, reports.push(success))) is Finalize,
{
    let all = reports.push(success);
    assert(all.drop_last() =~= reports);
    if reports.len() > 0 {
        lemma_failures_fall_back(s, reports);
    } else {
        assert(after_attempts(s, reports) == s);
        assert(delays(s, reports) == 0);
    }
}

/// When every source fails, the artifact fails: after as many failures as
/// there were sources left, the outcome is `Failed` with the last error, and
/// the temporary file is to be removed.
pub proof fn lemma_exhaustion(s: FetcherModel, reports: Seq<EventModel>)
    requires
        s.wf(),
        s.phase == Phase::Downloading,
        all_fail(s, reports),
        s.attempt + reports.len() == s.sources.len(),
    ensures
        after_attempts(s, reports).outcome matches Some(
            OutcomeModel::Failed(CauseModel::Exhausted(_)),
        ),
        pending(after_attempts(s, reports)) matches ActionModel::Settle { outcome, discard }
            && outcome is Failed && discard == Some(s.temp),
{
    let earlier = reports.drop_last();
    if earlier.len() > 0 {
        lemma_failures_fall_back(s, earlier);
    } else {
        assert(after_attempts(s, earlier) == s);
    }
}

/// The state of a batch after a whole sequence of events.
pub open spec fn batch_run(s: SchedulerModel, events: Seq<BatchEventModel>) -> SchedulerModel
    decreases events.len(),
{
    if events.len() == 0 {
        s
    } else {
        advance(batch_run(s, events.drop_last()), events.last())
    }
}

/// A batch starts in a state it can be in, with nothing in flight.
pub proof fn lemma_start_wf(total: nat, max_parallel: nat)
    requires
        max_parallel >= 1,
    ensures
        start(total, max_parallel).wf(),
        in_flight(start(total, max_parallel).slots) == 0,
{
    lemma_all_queued(start(total, max_parallel).slots);
}

/// Whatever the event, the scheduler stays in a state it can be in.
pub proof fn lemma_advance_wf(s: SchedulerModel, e: BatchEventModel)
    requires
        s.wf(),
    ensures
        advance(s, e).wf(),
        advance(s, e).max_parallel == s.max_parallel,
        advance(s, e).slots.len() == s.slots.len(),
{
    match e {
        BatchEventModel::Launched => {
            if next_action(s) is Start {
                lemma_in_flight_update(s.slots, s.started as int, SlotModel::InFlight);
            }
        },
        BatchEventModel::Settled { index, outcome } => {
            if index < s.slots.len() && s.slots[index as int] is InFlight {
                lemma_in_flight_update(s.slots, index as int, SlotModel::Settled(outcome));
            }
        },
        _ => {},
    }
}

/// Bounded parallelism: whatever is reported to the scheduler of a batch, in
/// whatever order, no more artifacts are ever in flight than the limit
/// allows.
pub proof fn lemma_never_over_the_limit(
    total: nat,
    max_parallel: nat,
    events: Seq<BatchEventModel>,
)
    requires
        max_parallel >= 1,
    ensures
        batch_run(start(total, max_parallel), events).wf(),
        batch_run(start(total, max_parallel), events).max_parallel == max_parallel,
        batch_run(start(total, max_parallel), events).slots.len() == total,
        in_flight(batch_run(start(total, max_parallel), events).slots) <= max_parallel,
    decreases events.len(),
{
    if events.len() == 0 {
        lemma_start_wf(total, max_parallel);
    } else {
        lemma_never_over_the_limit(total, max_parallel, events.drop_last());
        lemma_advance_wf(batch_run(start(total, max_parallel), events.drop_last()), events.last());
    }
}

/// The scheduler asks to start an artifact only while there is room for it.
pub proof fn lemma_start_needs_room(s: SchedulerModel)
    requires
        s.wf(),
        next_action(s) is Start,
    ensures
        in_flight(s.slots) < s.max_parallel,
        next_action(s) == BatchAction::Start(s.started as usize),
        s.slots[s.started as int] is Queued,
{
}

/// Each artifact gets exactly one outcome: once a slot is settled, no event
/// changes it.
pub proof fn lemma_one_outcome_each(s: SchedulerModel, e: BatchEventModel, i: int)
    requires
        s.wf(),
        0 <= i < s.slots.len(),
        s.slots[i] is Settled,
    ensures
        advance(s, e).slots[i] == s.slots[i],
{
}

/// A failed artifact stops no other: its failure is recorded in its own slot,
/// every other slot is as it was, a worker is free again, and where artifacts
/// are still queued the scheduler asks to start the next one.
pub proof fn lemma_failure_stops_no_other(s: SchedulerModel, index: nat, cause: CauseModel)
    requires
        s.wf(),
        index < s.slots.len(),
        s.slots[index as int] is InFlight,
    ensures
        ({
            let after = advance(
                s,
                BatchEventModel::Settled { index, outcome: OutcomeModel::Failed(cause) },
            );
            &&& after.slots[index as int] == SlotModel::Settled(OutcomeModel::Failed(cause))
            &&& forall|j: int|
                0 <= j < s.slots.len() && j != index ==> after.slots[j] == s.slots[j]
            &&& after.setup == s.setup
            &&& after.started == s.started
            &&& in_flight(after.slots) + 1 == in_flight(s.slots)
            &&& s.setup is Ready && s.started < s.slots.len() ==> next_action(after)
                == BatchAction::Start(s.started as usize)
        }),
{
    lemma_in_flight_update(
        s.slots,
        index as int,
        SlotModel::Settled(OutcomeModel::Failed(cause)),
    );
}

/// Where the directories cannot be created, no artifact is attempted and the
/// batch is over.
pub proof fn lemma_failed_setup_attempts_nothing(s: SchedulerModel, e: BatchEventModel)
    requires
        s.wf(),
        s.setup is Failed,
    ensures
        next_action(s) is Finish,
        forall|i: int| 0 <= i < s.slots.len() ==> s.slots[i] is Queued,
        advance(s, e).setup == s.setup,
        advance(s, e).slots == s.slots,
{
    lemma_all_queued(s.slots);
}

/// Every failed artifact stands in the list of failures, with its position
/// and its cause.
pub proof fn lemma_failure_is_reported(o: Seq<OutcomeModel>, j: int)
    requires
        0 <= j < o.len(),
        o[j] is Failed,
    ensures
        failures_of(o).contains(FailureModel { index: j as nat, cause: o[j]->Failed_0 }),
        failed_count(o) >= 1,
    decreases o.len(),
{
    let front = o.drop_last();
    if j == o.len() - 1 {
        let list = failures_of(o);
        assert(list == failures_of(front).push(
            FailureModel { index: j as nat, cause: o[j]->Failed_0 },
        ));
        assert(list[list.len() - 1] == FailureModel { index: j as nat, cause: o[j]->Failed_0 });
    } else {
        lemma_failure_is_reported(front, j);
        let found = choose|k: int|
            0 <= k < failures_of(front).len() && failures_of(front)[k] == (FailureModel {
                index: j as nat,
                cause: o[j]->Failed_0,
            });
        assert(failures_of(o)[found] == failures_of(front)[found]);
    }
}

/// A batch in which one artifact failed and every other was completed counts
/// exactly one failure and lists exactly that one.
pub proof fn lemma_lone_failure(o: Seq<OutcomeModel>, j: int)
    requires
        0 <= j < o.len(),
        o[j] is Failed,
        forall|i: int| 0 <= i < o.len() && i != j ==> o[i] is Completed,
    ensures
        failed_count(o) == 1,
        completed_count(o) == o.len() - 1,
        skipped_count(o) == 0,
        failures_of(o) == seq![FailureModel { index: j as nat, cause: o[j]->Failed_0 }],
    decreases o.len(),
{
    let front = o.drop_last();
    if j == o.len() - 1 {
        lemma_all_completed(front);
    } else {
        lemma_lone_failure(front, j);
    }
}

/// A batch in which every artifact was completed counts no failure.
pub proof fn lemma_all_completed(o: Seq<OutcomeModel>)
    requires
        forall|i: int| 0 <= i < o.len() ==> o[i] is Completed,
    ensures
        failed_count(o) == 0,
        completed_count(o) == o.len(),
        skipped_count(o) == 0,
        failures_of(o) == Seq::<FailureModel>::empty(),
    decreases o.len(),
{
    if o.len() > 0 {
        lemma_all_completed(o.drop_last());
    }
}

} // verus!
