//! The batch: all households of a sheet, replicated one after the other.
//!
//! The batch first has the operator confirm the start, showing the
//! households that have residents and no head.  It then drives one
//! household machine at a time and moves on when that machine comes to
//! rest.  A refusal by the operator, at the start or after a failure,
//! halts the batch for good.

use crate::grouping::{
    count_owner_rows, group_households, grouped, lemma_every_row_is_grouped,
    lemma_owners_within_rows, lemma_total_residents_of_prefix, mismatches_of, owner_rows,
    total_owners, total_residents,
};
use crate::household::{
    fragment_views, household_views, FragmentsView, Household, HouseholdView, RowFragments,
};
use crate::sync::{
    is_request, HouseholdSync, SyncAction, SyncActionView, SyncEvent, SyncEventView, SyncState,
    SyncView,
};
use crate::text::views;
use vstd::prelude::*;

verus! {

/// What a run has seen and uploaded.
#[derive(Debug, Clone, Copy, PartialEq, Eq, Structural)]
pub struct Counters {
    /// Rows that named a head of household.
    pub owners_seen: usize,
    /// Rows, each of which is a resident.
    pub residents_seen: usize,
    /// Households created or reconciled at the service.
    pub owners_uploaded: usize,
    /// Residents that the service accepted.
    pub residents_uploaded: usize,
}

/// Where a batch stands.
#[derive(Debug, Clone, Copy, PartialEq, Eq, Structural)]
pub enum BatchPhase {
    /// Nothing has been shown to the operator.
    Presenting,
    /// The operator has been asked whether to start.
    AwaitingStart,
    /// Households are being replicated.
    Running,
    /// The operator stopped the batch.
    Halted,
    /// Every household has been dealt with.
    Finished,
}

/// What the caller of a batch is to do next.
#[derive(Debug, Clone, PartialEq, Eq)]
pub enum BatchAction {
    /// Show the operator these keys of households without a head, ask
    /// whether to start, and hand back the decision.
    ConfirmStart { mismatches: Vec<String> },
    /// Perform this action for the current household.
    Sync(SyncAction),
    /// Nothing outside; step again with [`SyncEvent::Advance`].
    Advance,
    /// The batch is complete; these are the final counts.
    Report(Counters),
    /// The batch has been stopped.
    Halted,
    /// Nothing: the event was not the one that the batch waits for.
    Unexpected,
}

/// What a [`BatchAction`] holds, as texts.
pub enum BatchActionView {
    ConfirmStart { mismatches: Seq<Seq<char>> },
    Sync(SyncActionView),
    Advance,
    Report(Counters),
    Halted,
    Unexpected,
}

impl View for BatchAction {
    type V = BatchActionView;

    open spec fn view(&self) -> BatchActionView {
        match self {
            BatchAction::ConfirmStart { mismatches } => BatchActionView::ConfirmStart {
                mismatches: views(mismatches@),
            },
            BatchAction::Sync(action) => BatchActionView::Sync(action@),
            BatchAction::Advance => BatchActionView::Advance,
            BatchAction::Report(counters) => BatchActionView::Report(*counters),
            BatchAction::Halted => BatchActionView::Halted,
            BatchAction::Unexpected => BatchActionView::Unexpected,
        }
    }
}

/// Whether an action of the batch sends a request to the service.
pub open spec fn is_batch_request(action: BatchActionView) -> bool {
    action matches BatchActionView::Sync(inner) && is_request(inner)
}

/// The households of a list of machines.
pub open spec fn households_of(machines: Seq<SyncView>) -> Seq<HouseholdView> {
    machines.map_values(|machine: SyncView| machine.household)
}

/// Number of machines whose household counts as uploaded.
pub open spec fn uploaded_owners(machines: Seq<SyncView>) -> nat
    decreases machines.len(),
{
    if machines.len() == 0 {
        0
    } else {
        uploaded_owners(machines.drop_last()) + if machines.last().owner_uploaded {
            1nat
        } else {
            0nat
        }
    }
}

/// Number of residents that the service accepted, over all machines.
pub open spec fn uploaded_residents(machines: Seq<SyncView>) -> nat
    decreases machines.len(),
{
    if machines.len() == 0 {
        0
    } else {
        uploaded_residents(machines.drop_last()) + machines.last().residents_uploaded
    }
}

/// All households of a run with their machines.
#[derive(Debug, Clone, PartialEq, Eq)]
pub struct Batch {
    machines: Vec<HouseholdSync>,
    position: usize,
    phase: BatchPhase,
    owners_seen: usize,
    residents_seen: usize,
}

/// What a [`Batch`] holds.
pub struct BatchView {
    /// One machine for each household, in household order.
    pub machines: Seq<SyncView>,
    /// Position of the household that is being replicated.
    pub position: nat,
    /// The phase.
    pub phase: BatchPhase,
    /// Rows that named a head of household.
    pub owners_seen: nat,
    /// Rows.
    pub residents_seen: nat,
}

impl BatchView {
    /// What holds of a batch at every moment: every machine is well
    /// formed, the machines behind the current one have not started, and
    /// the households hold the residents that were seen and no more
    /// owners than were seen.
    pub open spec fn sound(self) -> bool {
        &&& self.position <= self.machines.len()
        &&& forall|i: int| 0 <= i < self.machines.len() ==> (#[trigger] self.machines[i]).wf()
        &&& forall|i: int|
            self.position < i < self.machines.len() ==> (#[trigger] self.machines[i]).state
                == SyncState::Pending
        &&& (self.phase == BatchPhase::Presenting || self.phase == BatchPhase::AwaitingStart)
            ==> self.position == 0 && (self.machines.len() > 0 ==> self.machines[0].state
            == SyncState::Pending)
        &&& total_residents(households_of(self.machines)) == self.residents_seen
        &&& total_owners(households_of(self.machines)) <= self.owners_seen
        &&& self.residents_seen <= usize::MAX
        &&& self.owners_seen <= usize::MAX
    }

    /// What holds of a batch between steps: it is sound, and while it
    /// runs the current machine is at work.
    pub open spec fn wf(self) -> bool {
        &&& self.sound()
        &&& self.phase == BatchPhase::Running ==> self.position < self.machines.len()
            && !self.machines[self.position as int].state.is_final()
    }

    /// The batch made of the fragments of a sheet: one machine at the
    /// start for each household, nothing shown yet.
    pub open spec fn initial(fragments: Seq<FragmentsView>) -> BatchView {
        BatchView {
            machines: grouped(fragments).map_values(
                |household: HouseholdView| SyncView::initial(household),
            ),
            position: 0,
            phase: BatchPhase::Presenting,
            owners_seen: owner_rows(fragments),
            residents_seen: fragments.len(),
        }
    }

    /// The counts as they stand.
    pub open spec fn counters(self) -> Counters {
        Counters {
            owners_seen: self.owners_seen as usize,
            residents_seen: self.residents_seen as usize,
            owners_uploaded: uploaded_owners(self.machines) as usize,
            residents_uploaded: uploaded_residents(self.machines) as usize,
        }
    }

    /// The batch turns to the household at `position`; where none is
    /// left it is finished and reports the counts.
    pub open spec fn enter(self, position: nat) -> (BatchView, BatchActionView) {
        if position < self.machines.len() {
            (BatchView { phase: BatchPhase::Running, position, ..self }, BatchActionView::Advance)
        } else {
            (
                BatchView { phase: BatchPhase::Finished, position: self.machines.len(), ..self },
                BatchActionView::Report(self.counters()),
            )
        }
    }

    /// While running: the current machine takes the event.  Where it
    /// comes to rest the batch moves on, or halts if the operator stopped
    /// it; else the action of the machine is handed out.
    pub open spec fn drive(self, event: SyncEventView) -> (BatchView, BatchActionView) {
        let (machine, action) = self.machines[self.position as int].next(event);
        let driven = BatchView {
            machines: self.machines.update(self.position as int, machine),
            ..self
        };
        if machine.state == SyncState::AbortBatch {
            (BatchView { phase: BatchPhase::Halted, ..driven }, BatchActionView::Halted)
        } else if machine.state.is_final() {
            driven.enter(self.position + 1)
        } else {
            (driven, BatchActionView::Sync(action))
        }
    }

    /// The step of the batch: the next batch and the action, for every
    /// phase and event.
    pub open spec fn next(self, event: SyncEventView) -> (BatchView, BatchActionView) {
        match (self.phase, event) {
            (BatchPhase::Presenting, SyncEventView::Advance) => (
                BatchView { phase: BatchPhase::AwaitingStart, ..self },
                BatchActionView::ConfirmStart {
                    mismatches: mismatches_of(households_of(self.machines)),
                },
            ),
            (BatchPhase::AwaitingStart, SyncEventView::Operator(go_on)) => if go_on {
                self.enter(0)
            } else {
                (BatchView { phase: BatchPhase::Halted, ..self }, BatchActionView::Halted)
            },
            (BatchPhase::Running, _) => self.drive(event),
            (BatchPhase::Halted, _) => (self, BatchActionView::Halted),
            (BatchPhase::Finished, _) => (self, BatchActionView::Report(self.counters())),
            _ => (self, BatchActionView::Unexpected),
        }
    }
}

/// The views of a list of machines.
pub open spec fn machine_views(machines: Seq<HouseholdSync>) -> Seq<SyncView> {
    machines.map_values(|machine: HouseholdSync| machine@)
}

/// Whether the batch waits for a decision of the operator: on the start,
/// or on a failure of the current household.
pub open spec fn awaits_operator(batch: BatchView) -> bool {
    batch.phase == BatchPhase::AwaitingStart || (batch.phase == BatchPhase::Running
        && batch.position < batch.machines.len() && batch.machines[batch.position as int].state
        == SyncState::Fatal)
}

/// Where the operator declines, at the start or after a failure, the
/// batch halts and sends nothing; a halted batch stays halted and never
/// sends anything; and nothing is sent before the operator has agreed to
/// start.
pub proof fn lemma_refusal_halts(batch: BatchView, event: SyncEventView)
    ensures
        awaits_operator(batch) ==> batch.next(SyncEventView::Operator(false)).0.phase
            == BatchPhase::Halted && !is_batch_request(
            batch.next(SyncEventView::Operator(false)).1,
        ),
        batch.phase == BatchPhase::Halted ==> batch.next(event) == (batch, BatchActionView::Halted),
        batch.phase == BatchPhase::Presenting || batch.phase == BatchPhase::AwaitingStart
            ==> !is_batch_request(batch.next(event).1),
{
}

/// What is uploaded was seen: the machines together report no more
/// accepted residents than the households hold, and no more uploaded
/// households than have an owner.
pub proof fn lemma_uploaded_within_seen(machines: Seq<SyncView>)
    requires
        forall|i: int| 0 <= i < machines.len() ==> (#[trigger] machines[i]).wf(),
    ensures
        uploaded_residents(machines) <= total_residents(households_of(machines)),
        uploaded_owners(machines) <= total_owners(households_of(machines)),
        uploaded_owners(machines) <= machines.len(),
    decreases machines.len(),
{
    if machines.len() > 0 {
        let front = machines.drop_last();
        lemma_uploaded_within_seen(front);
        assert(households_of(machines).drop_last() == households_of(front));
    }
}

impl View for Batch {
    type V = BatchView;

    closed spec fn view(&self) -> BatchView {
        BatchView {
            machines: machine_views(self.machines@),
            position: self.position as nat,
            phase: self.phase,
            owners_seen: self.owners_seen as nat,
            residents_seen: self.residents_seen as nat,
        }
    }
}

impl Batch {
    /// Makes the batch of the fragments of a sheet: counts what was seen,
    /// groups the fragments into households and sets up a machine for
    /// each.
    pub fn new(fragments: Vec<RowFragments>) -> (r: Batch)
        ensures
            r@ == BatchView::initial(fragment_views(fragments@)),
            r@.wf(),
    {
        let ghost all = fragment_views(fragments@);
        let owners_seen: usize = count_owner_rows(&fragments);
        let residents_seen: usize = fragments.len();
        let households = group_households(fragments);
        let ghost grouped_views = household_views(households@);
        let mut machines: Vec<HouseholdSync> = Vec::new();
        for household in it: households
            invariant
                it.seq() == households@,
                grouped_views == household_views(households@),
                machines.len() == it.index(),
                forall|i: int|
                    0 <= i < machines.len() ==> (#[trigger] machines@[i])@ == SyncView::initial(
                        grouped_views[i],
                    ) && machines@[i]@.wf(),
        {
            let machine = HouseholdSync::new(household);
            machines.push(machine);
        }
        let r = Batch {
            machines,
            position: 0,
            phase: BatchPhase::Presenting,
            owners_seen,
            residents_seen,
        };
        proof {
            assert(r@.machines =~= BatchView::initial(all).machines);
            assert(households_of(r@.machines) =~= grouped(all));
            lemma_every_row_is_grouped(all);
            lemma_owners_within_rows(all);
        }
        r
    }

    /// The phase.
    pub fn phase(&self) -> (r: BatchPhase)
        ensures
            r == self@.phase,
    {
        self.phase
    }

    /// Position of the household that is being replicated.
    pub fn position(&self) -> (r: usize)
        ensures
            r == self@.position,
    {
        self.position
    }

    /// The machines, one for each household, in household order.
    pub fn machines(&self) -> (r: &Vec<HouseholdSync>)
        ensures
            machine_views(r@) == self@.machines,
    {
        &self.machines
    }

    /// The keys of the households that have residents and no head.
    pub fn mismatches(&self) -> (r: Vec<String>)
        ensures
            views(r@) == mismatches_of(households_of(self@.machines)),
    {
        let mut keys: Vec<String> = Vec::new();
        let mut i: usize = 0;
        while i < self.machines.len()
            invariant
                i <= self.machines.len(),
                views(keys@) == mismatches_of(households_of(self@.machines).take(i as int)),
            decreases self.machines.len() - i,
        {
            let ghost next = households_of(self@.machines).take(i + 1);
            proof {
                assert(next.drop_last() == households_of(self@.machines).take(i as int));
            }
            let household = self.machines[i].household();
            if household.owner.is_none() && household.residents.len() > 0 {
                keys.push(household.key.clone());
            }
            i = i + 1;
        }
        assert(households_of(self@.machines).take(self.machines.len() as int) == households_of(
            self@.machines,
        ));
        keys
    }

    /// The counts as they stand.
    pub fn counters(&self) -> (r: Counters)
        requires
            self@.sound(),
        ensures
            r == self@.counters(),
            r.owners_uploaded == uploaded_owners(self@.machines),
            r.residents_uploaded == uploaded_residents(self@.machines),
            r.residents_uploaded <= r.residents_seen,
            r.owners_uploaded <= r.owners_seen,
    {
        let ghost all = self@.machines;
        let mut owners: usize = 0;
        let mut residents: usize = 0;
        let mut i: usize = 0;
        proof {
            lemma_uploaded_within_seen(all);
        }
        while i < self.machines.len()
            invariant
                i <= self.machines.len(),
                all == self@.machines,
                self@.sound(),
                owners == uploaded_owners(all.take(i as int)),
                residents == uploaded_residents(all.take(i as int)),
                owners <= i,
            decreases self.machines.len() - i,
        {
            let ghost next = all.take(i + 1);
            proof {
                assert(next.drop_last() == all.take(i as int));
                lemma_uploaded_within_seen(next);
                assert(households_of(all).take(i + 1) == households_of(next));
                lemma_total_residents_of_prefix(households_of(all), i + 1);
            }
            if self.machines[i].owner_uploaded() {
                owners = owners + 1;
            }
            residents = residents + self.machines[i].residents_uploaded();
            i = i + 1;
        }
        assert(all.take(self.machines.len() as int) == all);
        Counters {
            owners_seen: self.owners_seen,
            residents_seen: self.residents_seen,
            owners_uploaded: owners,
            residents_uploaded: residents,
        }
    }

    fn enter(&mut self, position: usize) -> (action: BatchAction)
        requires
            old(self)@.sound(),
            old(self)@.phase == BatchPhase::Running || old(self)@.phase
                == BatchPhase::AwaitingStart,
            old(self)@.position <= position <= old(self)@.machines.len(),
            position == old(self)@.position || position == old(self)@.position + 1,
            position < old(self)@.machines.len() ==> old(self)@.machines[position as int].state
                == SyncState::Pending,
        ensures
            final(self)@.wf(),
            (final(self)@, action@) == old(self)@.enter(position as nat),
    {
        if position < self.machines.len() {
            self.phase = BatchPhase::Running;
            self.position = position;
            BatchAction::Advance
        } else {
            let counters = self.counters();
            self.phase = BatchPhase::Finished;
            self.position = self.machines.len();
            BatchAction::Report(counters)
        }
    }

    fn drive(&mut self, event: SyncEvent) -> (action: BatchAction)
        requires
            old(self)@.wf(),
            old(self)@.phase == BatchPhase::Running,
        ensures
            final(self)@.wf(),
            (final(self)@, action@) == old(self)@.drive(event@),
    {
        let ghost before = self@;
        let position: usize = self.position;
        let action = self.machines[position].step(event);
        let state = self.machines[position].state();
        proof {
            let (machine, _) = before.machines[position as int].next(event@);
            assert(self@.machines =~= before.machines.update(position as int, machine));
            assert(households_of(self@.machines) =~= households_of(before.machines));
        }
        if state == SyncState::AbortBatch {
            self.phase = BatchPhase::Halted;
            BatchAction::Halted
        } else if state == SyncState::Done || state == SyncState::ContinueBatch {
            let count: usize = self.machines.len();
            assert(position < count);
            self.enter(position + 1)
        } else {
            BatchAction::Sync(action)
        }
    }

    /// Takes one step of the batch.  Before the operator has agreed to
    /// start, and once the batch is halted, no step asks for a request.
    pub fn step(&mut self, event: SyncEvent) -> (action: BatchAction)
        requires
            old(self)@.wf(),
        ensures
            final(self)@.wf(),
            (final(self)@, action@) == old(self)@.next(event@),
            old(self)@.phase != BatchPhase::Running ==> !is_batch_request(action@),
    {
        match (self.phase, event) {
            (BatchPhase::Presenting, SyncEvent::Advance) => {
                let mismatches = self.mismatches();
                self.phase = BatchPhase::AwaitingStart;
                BatchAction::ConfirmStart { mismatches }
            },
            (BatchPhase::AwaitingStart, SyncEvent::Operator(go_on)) => {
                if go_on {
                    self.enter(0)
                } else {
                    self.phase = BatchPhase::Halted;
                    BatchAction::Halted
                }
            },
            (BatchPhase::Running, event) => self.drive(event),
            (BatchPhase::Halted, _) => BatchAction::Halted,
            (BatchPhase::Finished, _) => BatchAction::Report(self.counters()),
            _ => BatchAction::Unexpected,
        }
    }
}

} // verus!
