//! A batch of artifacts, fetched with bounded parallelism.
//!
//! Like the machine for one artifact, the scheduler does nothing by itself: it
//! says what is to be done next ([`BatchAction`]) and is told what happened
//! ([`BatchEvent`]). It hands the artifacts out in the order they were
//! submitted, never has more of them in flight than the limit allows, takes
//! exactly one outcome for each, and gives the result only once every artifact
//! has one. A failed artifact stops no other.

use crate::outcome::{CauseModel, FailureCause, OutcomeModel, TransferOutcome};
use crate::text::{chars_of, concat, decimal, decimal_of, string_of};
use vstd::prelude::*;

verus! {

broadcast use vstd::string::group_string_axioms;

/// One artifact's place in the batch.
#[derive(Clone, Debug)]
pub enum Slot {
    /// Not handed out yet.
    Queued,
    /// Handed out, outcome awaited.
    InFlight,
    /// Done.
    Settled(TransferOutcome),
}

/// The mathematical value of a [`Slot`].
pub enum SlotModel {
    Queued,
    InFlight,
    Settled(OutcomeModel),
}

impl View for Slot {
    type V = SlotModel;

    open spec fn view(&self) -> SlotModel {
        match self {
            Slot::Queued => SlotModel::Queued,
            Slot::InFlight => SlotModel::InFlight,
            Slot::Settled(outcome) => SlotModel::Settled(outcome@),
        }
    }
}

/// Whether the destination directories are there.
#[derive(Clone, Debug)]
pub enum Setup {
    Pending,
    Ready,
    Failed(String),
}

/// The mathematical value of a [`Setup`].
pub enum SetupModel {
    Pending,
    Ready,
    Failed(Seq<char>),
}

impl View for Setup {
    type V = SetupModel;

    open spec fn view(&self) -> SetupModel {
        match self {
            Setup::Pending => SetupModel::Pending,
            Setup::Ready => SetupModel::Ready,
            Setup::Failed(detail) => SetupModel::Failed(detail@),
        }
    }
}

/// What the scheduler asks of its driver.
#[derive(Clone, Copy, Debug, PartialEq, Eq, Structural)]
pub enum BatchAction {
    /// Create the destination directory and the folder for mods in it.
    CreateDirectories,
    /// Start fetching the artifact with this index.
    Start(usize),
    /// Every worker is busy or the queue is empty: wait for an outcome.
    Wait,
    /// Nothing is left to do; the result can be taken.
    Finish,
}

/// What the driver reports to the scheduler.
#[derive(Clone, Debug)]
pub enum BatchEvent {
    /// The directories are there.
    DirectoriesReady,
    /// The directories could not be created; the text says why.
    DirectoriesFailed(String),
    /// The artifact the scheduler asked to start is on its way.
    Launched,
    /// The artifact with this index has its outcome.
    Settled { index: usize, outcome: TransferOutcome },
    /// So many more bytes have been written, by whichever worker.
    Progress(u64),
}

/// The mathematical value of a [`BatchEvent`].
pub enum BatchEventModel {
    DirectoriesReady,
    DirectoriesFailed(Seq<char>),
    Launched,
    Settled { index: nat, outcome: OutcomeModel },
    Progress(u64),
}

impl View for BatchEvent {
    type V = BatchEventModel;

    open spec fn view(&self) -> BatchEventModel {
        match self {
            BatchEvent::DirectoriesReady => BatchEventModel::DirectoriesReady,
            BatchEvent::DirectoriesFailed(detail) => BatchEventModel::DirectoriesFailed(detail@),
            BatchEvent::Launched => BatchEventModel::Launched,
            BatchEvent::Settled { index, outcome } => BatchEventModel::Settled {
                index: *index as nat,
                outcome: outcome@,
            },
            BatchEvent::Progress(n) => BatchEventModel::Progress(*n),
        }
    }
}

/// How many of the slots are in flight.
pub open spec fn in_flight(slots: Seq<SlotModel>) -> nat
    decreases slots.len(),
{
    if slots.len() == 0 {
        0
    } else {
        in_flight(slots.drop_last()) + if slots.last() is InFlight {
            1nat
        } else {
            0nat
        }
    }
}

/// How many of the slots are settled.
pub open spec fn settled(slots: Seq<SlotModel>) -> nat
    decreases slots.len(),
{
    if slots.len() == 0 {
        0
    } else {
        settled(slots.drop_last()) + if slots.last() is Settled {
            1nat
        } else {
            0nat
        }
    }
}

/// The sum of two byte counts, as far as the number type reaches.
pub open spec fn add_bytes(a: u64, b: u64) -> u64 {
    if a + b <= u64::MAX {
        (a + b) as u64
    } else {
        u64::MAX
    }
}

/// The state of the scheduler as a mathematical value.
pub struct SchedulerModel {
    /// How many artifacts may be in flight at once.
    pub max_parallel: nat,
    pub setup: SetupModel,
    /// One slot for each artifact, in the order of submission.
    pub slots: Seq<SlotModel>,
    /// How many artifacts have been handed out.
    pub started: nat,
    /// How many bytes have been written in all.
    pub bytes: u64,
}

impl SchedulerModel {
    /// Whether the state is one the scheduler can be in. Among the rest: no
    /// more artifacts are in flight than the limit allows.
    pub open spec fn wf(self) -> bool {
        &&& self.max_parallel >= 1
        &&& self.started <= self.slots.len()
        &&& forall|i: int| 0 <= i < self.started ==> !(#[trigger] self.slots[i] is Queued)
        &&& forall|i: int| self.started <= i < self.slots.len() ==> #[trigger] self.slots[i] is Queued
        &&& in_flight(self.slots) <= self.max_parallel
        &&& !(self.setup is Ready) ==> self.started == 0
    }

    /// Whether every artifact has its outcome.
    pub open spec fn all_settled(self) -> bool {
        settled(self.slots) == self.slots.len()
    }
}

/// The state in which a batch of `total` artifacts starts.
pub open spec fn start(total: nat, max_parallel: nat) -> SchedulerModel {
    SchedulerModel {
        max_parallel,
        setup: SetupModel::Pending,
        slots: Seq::new(total, |i: int| SlotModel::Queued),
        started: 0,
        bytes: 0,
    }
}

/// What the scheduler asks for in state `s`.
pub open spec fn next_action(s: SchedulerModel) -> BatchAction {
    match s.setup {
        SetupModel::Pending => BatchAction::CreateDirectories,
        SetupModel::Failed(_) => BatchAction::Finish,
        SetupModel::Ready => if s.started < s.slots.len() && in_flight(s.slots) < s.max_parallel {
            BatchAction::Start(s.started as usize)
        } else if in_flight(s.slots) > 0 {
            BatchAction::Wait
        } else {
            BatchAction::Finish
        },
    }
}

/// The state after event `e` in state `s`. An event that does not fit the
/// state changes nothing; so an artifact that has its outcome keeps it.
pub open spec fn advance(s: SchedulerModel, e: BatchEventModel) -> SchedulerModel {
    match e {
        BatchEventModel::DirectoriesReady => if s.setup is Pending {
            SchedulerModel { setup: SetupModel::Ready, ..s }
        } else {
            s
        },
        BatchEventModel::DirectoriesFailed(detail) => if s.setup is Pending {
            SchedulerModel { setup: SetupModel::Failed(detail), ..s }
        } else {
            s
        },
        BatchEventModel::Launched => if next_action(s) is Start {
            SchedulerModel {
                slots: s.slots.update(s.started as int, SlotModel::InFlight),
                started: s.started + 1,
                ..s
            }
        } else {
            s
        },
        BatchEventModel::Settled { index, outcome } => if index < s.slots.len()
            && s.slots[index as int] is InFlight {
            SchedulerModel { slots: s.slots.update(index as int, SlotModel::Settled(outcome)), ..s }
        } else {
            s
        },
        BatchEventModel::Progress(n) => SchedulerModel { bytes: add_bytes(s.bytes, n), ..s },
    }
}

/// One artifact that failed, and why.
#[derive(Clone, Debug)]
pub struct Failure {
    /// The artifact's position in the batch.
    pub index: usize,
    pub cause: FailureCause,
}

/// The mathematical value of a [`Failure`].
pub struct FailureModel {
    pub index: nat,
    pub cause: CauseModel,
}

impl View for Failure {
    type V = FailureModel;

    open spec fn view(&self) -> FailureModel {
        FailureModel { index: self.index as nat, cause: self.cause@ }
    }
}

/// What became of a whole batch.
#[derive(Clone, Debug)]
pub struct BatchResult {
    /// The outcome of each artifact, in the order of submission.
    pub outcomes: Vec<TransferOutcome>,
    pub skipped: usize,
    pub completed: usize,
    pub failed: usize,
    /// The failed artifacts, in the order of submission.
    pub failures: Vec<Failure>,
    /// How many bytes were written in all.
    pub bytes: u64,
}

/// The mathematical value of a [`BatchResult`].
pub struct BatchResultModel {
    pub outcomes: Seq<OutcomeModel>,
    pub skipped: nat,
    pub completed: nat,
    pub failed: nat,
    pub failures: Seq<FailureModel>,
    pub bytes: u64,
}

/// The views of a list of outcomes.
pub open spec fn outcome_views(v: Seq<TransferOutcome>) -> Seq<OutcomeModel> {
    Seq::new(v.len(), |i: int| v[i]@)
}

/// The views of a list of failures.
pub open spec fn failure_views(v: Seq<Failure>) -> Seq<FailureModel> {
    Seq::new(v.len(), |i: int| v[i]@)
}

impl View for BatchResult {
    type V = BatchResultModel;

    open spec fn view(&self) -> BatchResultModel {
        BatchResultModel {
            outcomes: outcome_views(self.outcomes@),
            skipped: self.skipped as nat,
            completed: self.completed as nat,
            failed: self.failed as nat,
            failures: failure_views(self.failures@),
            bytes: self.bytes,
        }
    }
}

/// How many of the outcomes are `Skipped`.
pub open spec fn skipped_count(o: Seq<OutcomeModel>) -> nat
    decreases o.len(),
{
    if o.len() == 0 {
        0
    } else {
        skipped_count(o.drop_last()) + if o.last() is Skipped {
            1nat
        } else {
            0nat
        }
    }
}

/// How many of the outcomes are `Completed`.
pub open spec fn completed_count(o: Seq<OutcomeModel>) -> nat
    decreases o.len(),
{
    if o.len() == 0 {
        0
    } else {
        completed_count(o.drop_last()) + if o.last() is Completed {
            1nat
        } else {
            0nat
        }
    }
}

/// How many of the outcomes are `Failed`.
pub open spec fn failed_count(o: Seq<OutcomeModel>) -> nat
    decreases o.len(),
{
    if o.len() == 0 {
        0
    } else {
        failed_count(o.drop_last()) + if o.last() is Failed {
            1nat
        } else {
            0nat
        }
    }
}

/// The failed artifacts among the outcomes, each with its position and cause,
/// in order.
pub open spec fn failures_of(o: Seq<OutcomeModel>) -> Seq<FailureModel>
    decreases o.len(),
{
    if o.len() == 0 {
        Seq::empty()
    } else {
        match o.last() {
            OutcomeModel::Failed(cause) => failures_of(o.drop_last()).push(
                FailureModel { index: (o.len() - 1) as nat, cause },
            ),
            _ => failures_of(o.drop_last()),
        }
    }
}

/// The result that a list of outcomes amounts to.
pub open spec fn summary(o: Seq<OutcomeModel>, bytes: u64) -> BatchResultModel {
    BatchResultModel {
        outcomes: o,
        skipped: skipped_count(o),
        completed: completed_count(o),
        failed: failed_count(o),
        failures: failures_of(o),
        bytes,
    }
}

/// The outcomes that the slots hold, for slots that are all settled.
pub open spec fn outcomes_of(slots: Seq<SlotModel>) -> Seq<OutcomeModel> {
    Seq::new(slots.len(), |i: int| slots[i]->Settled_0)
}

/// Every outcome is of exactly one kind, and each failure is listed once.
pub proof fn lemma_counts(o: Seq<OutcomeModel>)
    ensures
        skipped_count(o) + completed_count(o) + failed_count(o) == o.len(),
        failures_of(o).len() == failed_count(o),
    decreases o.len(),
{
    if o.len() > 0 {
        lemma_counts(o.drop_last());
    }
}

/// Putting one slot into another state changes the number in flight by that
/// slot alone.
pub proof fn lemma_in_flight_update(slots: Seq<SlotModel>, i: int, x: SlotModel)
    requires
        0 <= i < slots.len(),
    ensures
        in_flight(slots.update(i, x)) + (if slots[i] is InFlight {
            1nat
        } else {
            0nat
        }) == in_flight(slots) + (if x is InFlight {
            1nat
        } else {
            0nat
        }),
    decreases slots.len(),
{
    let after = slots.update(i, x);
    if i == slots.len() - 1 {
        assert(after.drop_last() =~= slots.drop_last());
    } else {
        assert(after.drop_last() =~= slots.drop_last().update(i, x));
        lemma_in_flight_update(slots.drop_last(), i, x);
    }
}

/// Putting one slot into another state changes the number settled by that
/// slot alone.
pub proof fn lemma_settled_update(slots: Seq<SlotModel>, i: int, x: SlotModel)
    requires
        0 <= i < slots.len(),
    ensures
        settled(slots.update(i, x)) + (if slots[i] is Settled {
            1nat
        } else {
            0nat
        }) == settled(slots) + (if x is Settled {
            1nat
        } else {
            0nat
        }),
    decreases slots.len(),
{
    let after = slots.update(i, x);
    if i == slots.len() - 1 {
        assert(after.drop_last() =~= slots.drop_last());
    } else {
        assert(after.drop_last() =~= slots.drop_last().update(i, x));
        lemma_settled_update(slots.drop_last(), i, x);
    }
}

/// Slots that are all queued have none in flight and none settled.
pub proof fn lemma_all_queued(slots: Seq<SlotModel>)
    requires
        forall|i: int| 0 <= i < slots.len() ==> #[trigger] slots[i] is Queued,
    ensures
        in_flight(slots) == 0,
        settled(slots) == 0,
    decreases slots.len(),
{
    if slots.len() > 0 {
        lemma_all_queued(slots.drop_last());
    }
}

/// No more slots are in flight or settled than there are slots; and where all
/// are settled, each one is.
pub proof fn lemma_settled_bound(slots: Seq<SlotModel>)
    ensures
        in_flight(slots) + settled(slots) <= slots.len(),
        settled(slots) == slots.len() ==> forall|i: int|
            0 <= i < slots.len() ==> #[trigger] slots[i] is Settled,
        (forall|i: int| 0 <= i < slots.len() ==> !(#[trigger] slots[i] is Queued)) ==> in_flight(
            slots,
        ) + settled(slots) == slots.len(),
    decreases slots.len(),
{
    if slots.len() > 0 {
        let front = slots.drop_last();
        lemma_settled_bound(front);
        if settled(slots) == slots.len() {
            assert forall|i: int| 0 <= i < slots.len() implies #[trigger] slots[i] is Settled by {
                if i < slots.len() - 1 {
                    assert(front[i] is Settled);
                }
            }
        }
        if forall|i: int| 0 <= i < slots.len() ==> !(#[trigger] slots[i] is Queued) {
            assert forall|i: int| 0 <= i < front.len() implies !(#[trigger] front[i] is Queued) by {
                assert(!(slots[i] is Queued));
            }
        }
    }
}

/// The scheduler of one batch.
pub struct Scheduler {
    max_parallel: usize,
    setup: Setup,
    slots: Vec<Slot>,
    started: usize,
    flying: usize,
    done: usize,
    bytes: u64,
}

/// The views of a list of slots.
pub open spec fn slot_views(v: Seq<Slot>) -> Seq<SlotModel> {
    Seq::new(v.len(), |i: int| v[i]@)
}

impl View for Scheduler {
    type V = SchedulerModel;

    closed spec fn view(&self) -> SchedulerModel {
        SchedulerModel {
            max_parallel: self.max_parallel as nat,
            setup: self.setup@,
            slots: slot_views(self.slots@),
            started: self.started as nat,
            bytes: self.bytes,
        }
    }
}

impl Scheduler {
    #[verifier::type_invariant]
    spec fn inv(self) -> bool {
        &&& self@.wf()
        &&& self.flying == in_flight(self@.slots)
        &&& self.done == settled(self@.slots)
    }

    /// A scheduler for `total` artifacts of which at most `max_parallel` are
    /// fetched at once.
    pub fn new(total: usize, max_parallel: usize) -> (r: Scheduler)
        requires
            max_parallel >= 1,
        ensures
            r@ == start(total as nat, max_parallel as nat),
            r@.wf(),
    {
        let mut slots: Vec<Slot> = Vec::new();
        let mut i: usize = 0;
        while i < total
            invariant
                i <= total,
                slots@.len() == i,
                forall|j: int| 0 <= j < i ==> slots@[j]@ is Queued,
            decreases total - i,
        {
            slots.push(Slot::Queued);
            i += 1;
        }
        proof {
            assert(slot_views(slots@) =~= Seq::new(total as nat, |i: int| SlotModel::Queued));
            lemma_all_queued(slot_views(slots@));
        }
        Scheduler {
            max_parallel,
            setup: Setup::Pending,
            slots,
            started: 0,
            flying: 0,
            done: 0,
            bytes: 0,
        }
    }

    /// How many artifacts are in flight. Never more than the limit.
    pub fn in_flight(&self) -> (r: usize)
        ensures
            r == in_flight(self@.slots),
            r <= self@.max_parallel,
            self@.wf(),
    {
        proof {
            use_type_invariant(self);
        }
        self.flying
    }

    /// How many artifacts have their outcome.
    pub fn settled(&self) -> (r: usize)
        ensures
            r == settled(self@.slots),
    {
        proof {
            use_type_invariant(self);
        }
        self.done
    }

    /// How many bytes have been written in all.
    pub fn bytes(&self) -> (r: u64)
        ensures
            r == self@.bytes,
    {
        self.bytes
    }

    /// What is to be done next: see [`next_action`].
    pub fn next(&self) -> (r: BatchAction)
        ensures
            r == next_action(self@),
    {
        proof {
            use_type_invariant(self);
        }
        match &self.setup {
            Setup::Pending => BatchAction::CreateDirectories,
            Setup::Failed(_) => BatchAction::Finish,
            Setup::Ready => if self.started < self.slots.len() && self.flying < self.max_parallel {
                BatchAction::Start(self.started)
            } else if self.flying > 0 {
                BatchAction::Wait
            } else {
                BatchAction::Finish
            },
        }
    }

    /// Takes the driver's report: see [`advance`].
    pub fn handle(self, event: BatchEvent) -> (r: Scheduler)
        ensures
            r@ == advance(self@, event@),
            r@.wf(),
    {
        proof {
            use_type_invariant(&self);
        }
        let r = match event {
            BatchEvent::DirectoriesReady => match &self.setup {
                Setup::Pending => Scheduler { setup: Setup::Ready, ..self },
                _ => self,
            },
            BatchEvent::DirectoriesFailed(detail) => match &self.setup {
                Setup::Pending => Scheduler { setup: Setup::Failed(detail), ..self },
                _ => self,
            },
            BatchEvent::Launched => match self.next() {
                BatchAction::Start(index) => {
                    let ghost before = slot_views(self.slots@);
                    let total: usize = self.slots.len();
                    assert(self.started < total);
                    let started: usize = self.started + 1;
                    let flying: usize = self.flying + 1;
                    let mut slots = self.slots;
                    slots.set(index, Slot::InFlight);
                    proof {
                        assert(slot_views(slots@) =~= before.update(
                            index as int,
                            SlotModel::InFlight,
                        ));
                        lemma_in_flight_update(before, index as int, SlotModel::InFlight);
                        lemma_settled_update(before, index as int, SlotModel::InFlight);
                    }
                    Scheduler {
                        max_parallel: self.max_parallel,
                        setup: self.setup,
                        slots,
                        started,
                        flying,
                        done: self.done,
                        bytes: self.bytes,
                    }
                },
                _ => self,
            },
            BatchEvent::Settled { index, outcome } => {
                if index < self.slots.len() && self.is_in_flight(index) {
                    let ghost before = slot_views(self.slots@);
                    proof {
                        lemma_in_flight_update(before, index as int, SlotModel::Queued);
                        lemma_settled_bound(before);
                    }
                    let flying: usize = self.flying - 1;
                    let done: usize = self.done + 1;
                    let mut slots = self.slots;
                    let ghost state = SlotModel::Settled(outcome@);
                    slots.set(index, Slot::Settled(outcome));
                    proof {
                        assert(slot_views(slots@) =~= before.update(index as int, state));
                        lemma_in_flight_update(before, index as int, state);
                        lemma_settled_update(before, index as int, state);
                    }
                    Scheduler {
                        max_parallel: self.max_parallel,
                        setup: self.setup,
                        slots,
                        started: self.started,
                        flying,
                        done,
                        bytes: self.bytes,
                    }
                } else {
                    self
                }
            },
            BatchEvent::Progress(n) => {
                let bytes: u64 = if n <= u64::MAX - self.bytes {
                    self.bytes + n
                } else {
                    u64::MAX
                };
                Scheduler { bytes, ..self }
            },
        };
        proof {
            use_type_invariant(&r);
        }
        r
    }

    fn is_in_flight(&self, index: usize) -> (r: bool)
        requires
            index < self.slots@.len(),
        ensures
            r == (self@.slots[index as int] is InFlight),
    {
        match &self.slots[index] {
            Slot::InFlight => true,
            _ => false,
        }
    }

    /// The result of the batch, once nothing is left to do: `None` before
    /// that, the reason where the directories could not be created, and else
    /// the outcome of every artifact with the counts and the failures.
    pub fn conclude(&self) -> (r: Option<Result<BatchResult, String>>)
        ensures
            !(next_action(self@) is Finish) ==> r is None,
            next_action(self@) is Finish ==> match self@.setup {
                SetupModel::Failed(detail) => r matches Some(Err(text)) && text@ == detail,
                _ => r matches Some(Ok(result)) && result@ == summary(
                    outcomes_of(self@.slots),
                    self@.bytes,
                ) && self@.all_settled(),
            },
    {
        proof {
            use_type_invariant(self);
            lemma_settled_bound(self@.slots);
        }
        match self.next() {
            BatchAction::Finish => {},
            _ => {
                return None;
            },
        }
        if let Setup::Failed(detail) = &self.setup {
            return Some(Err(detail.clone()));
        }
        let mut outcomes: Vec<TransferOutcome> = Vec::new();
        let mut failures: Vec<Failure> = Vec::new();
        let mut skipped: usize = 0;
        let mut completed: usize = 0;
        let mut failed: usize = 0;
        let mut i: usize = 0;
        let ghost all = outcomes_of(self@.slots);
        while i < self.slots.len()
            invariant
                i <= self.slots@.len(),
                all == outcomes_of(slot_views(self.slots@)),
                forall|j: int| 0 <= j < self.slots@.len() ==> #[trigger] slot_views(
                    self.slots@,
                )[j] is Settled,
                outcome_views(outcomes@) == all.take(i as int),
                failure_views(failures@) == failures_of(all.take(i as int)),
                skipped == skipped_count(all.take(i as int)),
                completed == completed_count(all.take(i as int)),
                failed == failed_count(all.take(i as int)),
            decreases self.slots@.len() - i,
        {
            proof {
                lemma_counts(all.take(i as int));
                assert(all.take(i + 1).drop_last() =~= all.take(i as int));
                assert(slot_views(self.slots@)[i as int] is Settled);
            }
            match &self.slots[i] {
                Slot::Settled(outcome) => {
                    match outcome {
                        TransferOutcome::Skipped(_) => {
                            skipped += 1;
                        },
                        TransferOutcome::Completed { .. } => {
                            completed += 1;
                        },
                        TransferOutcome::Failed(cause) => {
                            failed += 1;
                            failures.push(Failure { index: i, cause: cause.duplicate() });
                        },
                    }
                    outcomes.push(outcome.duplicate());
                },
                _ => {},
            }
            proof {
                assert(outcome_views(outcomes@) =~= all.take(i + 1));
                assert(failure_views(failures@) =~= failures_of(all.take(i + 1)));
            }
            i += 1;
        }
        proof {
            assert(all.take(all.len() as int) =~= all);
        }
        Some(Ok(BatchResult { outcomes, skipped, completed, failed, failures, bytes: self.bytes }))
    }
}

impl BatchResult {
    /// Whether the batch as a whole succeeded: no artifact failed.
    pub fn is_success(&self) -> (r: bool)
        ensures
            r == (self@.failed == 0),
    {
        self.failed == 0
    }
}

/// What is said of a batch in which so many artifacts failed.
pub open spec fn batch_complaint(failed: nat) -> Seq<char> {
    decimal(failed) + " mods failed to download"@
}

/// What is said of a batch whose directories could not be created.
pub open spec fn setup_complaint(detail: Seq<char>) -> Seq<char> {
    "Failed to create mods directory: "@ + detail
}

/// The message for a batch in which artifacts failed: see
/// [`batch_complaint`].
pub fn describe_batch_failure(result: &BatchResult) -> (r: String)
    ensures
        r@ == batch_complaint(result@.failed),
{
    let count = decimal_of(result.failed as u64);
    string_of(&concat(&count, &chars_of(" mods failed to download")))
}

/// The message for a batch whose directories could not be created: see
/// [`setup_complaint`].
pub fn describe_setup_failure(detail: &str) -> (r: String)
    ensures
        r@ == setup_complaint(detail@),
{
    string_of(&concat(&chars_of("Failed to create mods directory: "), &chars_of(detail)))
}

} // verus!
