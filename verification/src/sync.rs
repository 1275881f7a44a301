//! The state machine that replicates one household into the remote
//! service.
//!
//! The machine decides; it performs nothing.  Each step takes an event,
//! moves to the next state and answers with the action that the caller is
//! to perform.  The answer of the service to a request, or of the operator
//! to a question, comes back as the next event.
//!
//! ```text
//! Pending -> CreateAttempted -> Created ------------------------------+
//!                            -> Conflict -> Searching -> Found        |
//!                                             -> Purging (list, delete, list, ...)
//!                                                  -> Reconciled -----+
//!                                                                     v
//!                                                     ResidentUpload -> Done
//! any failure -> Fatal -> ContinueBatch | AbortBatch | the next resident
//! ```

use crate::household::{BundleView, Household, HouseholdView, ResidentBundle};
use crate::household_info::{OwnerView, ValueFieldHouseOwner};
use crate::reply::{
    creation_outcome, find_record_id, purge_page, read_creation_reply, read_purge_page,
    read_reply_kind, read_success, record_id_in, reply_kind, reports_success, CreationOutcome,
    CreationOutcomeView, PurgePage, PurgePageView, ReplyKind,
};
use crate::text::views;
use crate::wire::base64_text;
use vstd::prelude::*;

verus! {

/// How often a purge may list dependents and delete a page before the
/// machine stops trusting the remote count.
pub const MAX_PURGE_ROUNDS: usize = 1000;

/// Where the replication of a household stands.
#[derive(Debug, Clone, Copy, PartialEq, Eq, Structural)]
pub enum SyncState {
    /// Nothing has been sent.
    Pending,
    /// The owner has been submitted.
    CreateAttempted,
    /// The service created the household and assigned a record id.
    Created,
    /// The service knows the ticket number already.
    Conflict,
    /// The existing record is being looked up by its ticket number.
    Searching,
    /// The record id of the existing record is known.
    Found,
    /// The dependents of the existing record are being deleted, page by
    /// page.
    Purging,
    /// The existing record has no dependents left.
    Reconciled,
    /// The residents are being submitted, one at a time.
    ResidentUpload,
    /// Every resident has been submitted, or the household has no owner
    /// and nothing is to be sent.
    Done,
    /// A request failed; the operator decides.
    Fatal,
    /// The operator skipped the household; the batch goes on.
    ContinueBatch,
    /// The operator stopped the batch.
    AbortBatch,
}

impl SyncState {
    /// Whether the machine has come to rest.
    pub open spec fn is_final(self) -> bool {
        self == SyncState::Done || self == SyncState::ContinueBatch || self
            == SyncState::AbortBatch
    }

    /// Whether the state lies before the upload of the residents.
    pub open spec fn is_before_upload(self) -> bool {
        self == SyncState::Pending || self == SyncState::CreateAttempted || self
            == SyncState::Created || self == SyncState::Conflict || self == SyncState::Searching
            || self == SyncState::Found || self == SyncState::Purging || self
            == SyncState::Reconciled
    }

    /// Whether a step may lead from `self` to `to`: the arrows of the
    /// diagram, and staying.
    pub open spec fn leads_to(self, to: SyncState) -> bool {
        self == to || match self {
            SyncState::Pending => to == SyncState::CreateAttempted || to == SyncState::Done,
            SyncState::CreateAttempted => to == SyncState::Created || to == SyncState::Conflict
                || to == SyncState::Fatal,
            SyncState::Created => to == SyncState::ResidentUpload || to == SyncState::Done,
            SyncState::Conflict => to == SyncState::Searching,
            SyncState::Searching => to == SyncState::Found || to == SyncState::Fatal,
            SyncState::Found => to == SyncState::Purging,
            SyncState::Purging => to == SyncState::Reconciled || to == SyncState::Fatal,
            SyncState::Reconciled => to == SyncState::ResidentUpload || to == SyncState::Done,
            SyncState::ResidentUpload => to == SyncState::Done || to == SyncState::Fatal,
            SyncState::Fatal => to == SyncState::ContinueBatch || to == SyncState::AbortBatch
                || to == SyncState::ResidentUpload || to == SyncState::Done,
            SyncState::Done => false,
            SyncState::ContinueBatch => false,
            SyncState::AbortBatch => false,
        }
    }
}

/// What happened outside the machine.
#[derive(Debug, Clone, PartialEq, Eq)]
pub enum SyncEvent {
    /// Nothing: the machine is asked to go on by itself.
    Advance,
    /// The service answered the last request with this text.
    Reply(String),
    /// The operator answered the last question: go on, or stop.
    Operator(bool),
}

/// What a [`SyncEvent`] holds, as texts.
pub enum SyncEventView {
    Advance,
    Reply(Seq<char>),
    Operator(bool),
}

impl View for SyncEvent {
    type V = SyncEventView;

    open spec fn view(&self) -> SyncEventView {
        match self {
            SyncEvent::Advance => SyncEventView::Advance,
            SyncEvent::Reply(text) => SyncEventView::Reply(text@),
            SyncEvent::Operator(go_on) => SyncEventView::Operator(*go_on),
        }
    }
}

/// What the caller is to do next.
#[derive(Debug, Clone, PartialEq, Eq)]
pub enum SyncAction {
    /// Nothing outside; step again with [`SyncEvent::Advance`].
    Advance,
    /// Submit this encoded owner and hand back the answer.
    SubmitOwner { owner: ValueFieldHouseOwner },
    /// Search for this ticket number and hand back the answer.
    SearchTicket { so_phieu: String },
    /// List the dependents of this record id and hand back the answer.
    ListDependents { ma_phieu: String },
    /// Delete the dependents with these ids and hand back the answer.
    DeleteDependents { ids: Vec<String> },
    /// Submit this bound and encoded resident, the one at `index` of the
    /// household, and hand back the answer.
    SubmitResident { index: usize, bundle: ResidentBundle },
    /// Show the operator this answer of the service and what was sent,
    /// ask whether to go on, and hand back the decision.
    Confirm { reply: String },
    /// Nothing: the machine has come to rest.
    Finished,
    /// Nothing: the event was not the one that the state waits for, and
    /// the machine has not moved.
    Unexpected,
}

/// What a [`SyncAction`] holds, as texts.
pub enum SyncActionView {
    Advance,
    SubmitOwner { owner: OwnerView },
    SearchTicket { so_phieu: Seq<char> },
    ListDependents { ma_phieu: Seq<char> },
    DeleteDependents { ids: Seq<Seq<char>> },
    SubmitResident { index: nat, bundle: BundleView },
    Confirm { reply: Seq<char> },
    Finished,
    Unexpected,
}

impl View for SyncAction {
    type V = SyncActionView;

    open spec fn view(&self) -> SyncActionView {
        match self {
            SyncAction::Advance => SyncActionView::Advance,
            SyncAction::SubmitOwner { owner } => SyncActionView::SubmitOwner { owner: owner@ },
            SyncAction::SearchTicket { so_phieu } => SyncActionView::SearchTicket {
                so_phieu: so_phieu@,
            },
            SyncAction::ListDependents { ma_phieu } => SyncActionView::ListDependents {
                ma_phieu: ma_phieu@,
            },
            SyncAction::DeleteDependents { ids } => SyncActionView::DeleteDependents {
                ids: views(ids@),
            },
            SyncAction::SubmitResident { index, bundle } => SyncActionView::SubmitResident {
                index: *index as nat,
                bundle: bundle@,
            },
            SyncAction::Confirm { reply } => SyncActionView::Confirm { reply: reply@ },
            SyncAction::Finished => SyncActionView::Finished,
            SyncAction::Unexpected => SyncActionView::Unexpected,
        }
    }
}

/// The replication of one household: the household, the state, and what
/// the machine has learnt and counted on the way.
#[derive(Debug, Clone, PartialEq, Eq)]
pub struct HouseholdSync {
    household: Household,
    state: SyncState,
    ma_phieu: String,
    deleting: bool,
    purge_rounds: usize,
    next_resident: usize,
    resident_failed: bool,
    owner_uploaded: bool,
    residents_uploaded: usize,
}

/// What a [`HouseholdSync`] holds.
pub struct SyncView {
    /// The household that is replicated.
    pub household: HouseholdView,
    /// The state.
    pub state: SyncState,
    /// The record id of the household, once created or found.
    pub ma_phieu: Seq<char>,
    /// While purging: whether the answer awaited is that to a delete (and
    /// not that to a listing).
    pub deleting: bool,
    /// Pages deleted in the purge so far.
    pub purge_rounds: nat,
    /// Residents dealt with so far; the position of the one in flight.
    pub next_resident: nat,
    /// While fatal: whether a resident failed (and not the household).
    pub resident_failed: bool,
    /// Whether the household counts as uploaded.
    pub owner_uploaded: bool,
    /// Residents that the service accepted.
    pub residents_uploaded: nat,
}

impl SyncView {
    /// What always holds of a machine: the counters stay within the
    /// household and start at the first resident, a resident is in flight
    /// while residents are uploaded or one has failed, and only a
    /// household with an owner leaves the start or counts as uploaded.
    pub open spec fn wf(self) -> bool {
        &&& self.owner_uploaded ==> self.household.owner is Some
        &&& self.next_resident <= self.household.residents.len()
        &&& self.state.is_before_upload() ==> self.next_resident == 0
        &&& self.residents_uploaded <= self.next_resident
        &&& self.purge_rounds <= MAX_PURGE_ROUNDS
        &&& self.state == SyncState::ResidentUpload ==> self.next_resident
            < self.household.residents.len()
        &&& self.state == SyncState::Fatal && self.resident_failed ==> self.next_resident
            < self.household.residents.len()
        &&& self.state != SyncState::Pending && self.state != SyncState::Done
            ==> self.household.owner is Some
    }

    /// A bound on the number of steps that the machine can still take
    /// before it comes to rest, whatever the service and the operator
    /// answer.  Each resident takes at most two steps, an answer and a
    /// decision; each round of the purge takes two, a listing and a
    /// delete.
    pub open spec fn steps_left(self) -> int {
        let residents = self.household.residents.len() as int;
        let upload = 2 * residents + 1;
        let purge = upload + 2 * MAX_PURGE_ROUNDS + 2;
        match self.state {
            SyncState::Pending => purge + 6,
            SyncState::CreateAttempted => purge + 5,
            SyncState::Conflict => purge + 4,
            SyncState::Searching => purge + 3,
            SyncState::Found => purge + 2,
            SyncState::Purging => upload + 2 * (MAX_PURGE_ROUNDS - self.purge_rounds)
                + if self.deleting {
                    3int
                } else {
                    2int
                },
            SyncState::Created => upload,
            SyncState::Reconciled => upload,
            SyncState::ResidentUpload => 2 * (residents - self.next_resident),
            SyncState::Fatal => if self.resident_failed {
                2 * (residents - self.next_resident) - 1
            } else {
                1
            },
            SyncState::Done => 0,
            SyncState::ContinueBatch => 0,
            SyncState::AbortBatch => 0,
        }
    }

    /// The machine at the start.
    pub open spec fn initial(household: HouseholdView) -> SyncView {
        SyncView {
            household,
            state: SyncState::Pending,
            ma_phieu: Seq::empty(),
            deleting: false,
            purge_rounds: 0,
            next_resident: 0,
            resident_failed: false,
            owner_uploaded: false,
            residents_uploaded: 0,
        }
    }

    /// The machine stays where it is.
    pub open spec fn unexpected(self) -> (SyncView, SyncActionView) {
        (self, SyncActionView::Unexpected)
    }

    /// A request failed: the operator is shown the answer.
    pub open spec fn fail(self, resident_failed: bool, reply: Seq<char>) -> (
        SyncView,
        SyncActionView,
    ) {
        (
            SyncView { state: SyncState::Fatal, resident_failed, ..self },
            SyncActionView::Confirm { reply },
        )
    }

    /// The resident at `next_resident` is submitted, bound to the record
    /// id; where none is left the household is done.
    pub open spec fn upload(self) -> (SyncView, SyncActionView) {
        if self.next_resident < self.household.residents.len() {
            (
                SyncView { state: SyncState::ResidentUpload, ..self },
                SyncActionView::SubmitResident {
                    index: self.next_resident,
                    bundle: self.household.residents[self.next_resident as int].encoded_for(
                        self.ma_phieu,
                    ),
                },
            )
        } else {
            (SyncView { state: SyncState::Done, ..self }, SyncActionView::Finished)
        }
    }

    /// From the start: the encoded owner is submitted.  A household
    /// without an owner has nothing to send.
    pub open spec fn begin(self) -> (SyncView, SyncActionView) {
        match self.household.owner {
            Some(owner) => (
                SyncView { state: SyncState::CreateAttempted, ..self },
                SyncActionView::SubmitOwner { owner: owner.encoded() },
            ),
            None => (SyncView { state: SyncState::Done, ..self }, SyncActionView::Finished),
        }
    }

    /// The service answered the submission of the owner.
    pub open spec fn after_creation(self, reply: Seq<char>) -> (SyncView, SyncActionView) {
        match creation_outcome(reply) {
            CreationOutcomeView::Created { ma_phieu } => (
                SyncView { state: SyncState::Created, ma_phieu, owner_uploaded: true, ..self },
                SyncActionView::Advance,
            ),
            CreationOutcomeView::Conflict => (
                SyncView { state: SyncState::Conflict, ..self },
                SyncActionView::Advance,
            ),
            CreationOutcomeView::Rejected => self.fail(false, reply),
        }
    }

    /// After a conflict: the existing record is searched by the ticket
    /// number of the owner.
    pub open spec fn search(self) -> (SyncView, SyncActionView) {
        match self.household.owner {
            Some(owner) => (
                SyncView { state: SyncState::Searching, ..self },
                SyncActionView::SearchTicket { so_phieu: owner.so_phieu },
            ),
            None => self.unexpected(),
        }
    }

    /// The service answered the search.
    pub open spec fn after_search(self, reply: Seq<char>) -> (SyncView, SyncActionView) {
        match record_id_in(reply) {
            Some(ma_phieu) => (
                SyncView { state: SyncState::Found, ma_phieu, ..self },
                SyncActionView::Advance,
            ),
            None => self.fail(false, reply),
        }
    }

    /// The purge begins with a listing of the dependents.
    pub open spec fn begin_purge(self) -> (SyncView, SyncActionView) {
        (
            SyncView { state: SyncState::Purging, deleting: false, purge_rounds: 0, ..self },
            SyncActionView::ListDependents { ma_phieu: self.ma_phieu },
        )
    }

    /// The service answered a listing.  No dependents left: the record is
    /// reconciled.  Otherwise the page is deleted, unless the purge has
    /// gone on for too long.
    pub open spec fn after_listing(self, reply: Seq<char>) -> (SyncView, SyncActionView) {
        match purge_page(reply) {
            PurgePageView::Empty => (
                SyncView { state: SyncState::Reconciled, owner_uploaded: true, ..self },
                SyncActionView::Advance,
            ),
            PurgePageView::Dependents { ids } => if self.purge_rounds < MAX_PURGE_ROUNDS {
                (
                    SyncView { deleting: true, purge_rounds: self.purge_rounds + 1, ..self },
                    SyncActionView::DeleteDependents { ids },
                )
            } else {
                self.fail(false, reply)
            },
            PurgePageView::Malformed => self.fail(false, reply),
        }
    }

    /// The service answered a delete: the dependents are listed again,
    /// whether or not the delete succeeded.  An answer that cannot be
    /// read is a failure.
    pub open spec fn after_delete(self, reply: Seq<char>) -> (SyncView, SyncActionView) {
        if reply_kind(reply) == ReplyKind::Malformed {
            self.fail(false, reply)
        } else {
            (
                SyncView { deleting: false, ..self },
                SyncActionView::ListDependents { ma_phieu: self.ma_phieu },
            )
        }
    }

    /// The service answered the submission of a resident.
    pub open spec fn after_resident(self, reply: Seq<char>) -> (SyncView, SyncActionView) {
        if reports_success(reply) {
            (SyncView {
                next_resident: self.next_resident + 1,
                residents_uploaded: self.residents_uploaded + 1,
                ..self
            }).upload()
        } else {
            self.fail(true, reply)
        }
    }

    /// The operator decided on a failure.  To stop ends the batch.  To go
    /// on skips what failed: the resident, or the whole household.
    pub open spec fn after_decision(self, go_on: bool) -> (SyncView, SyncActionView) {
        if !go_on {
            (SyncView { state: SyncState::AbortBatch, ..self }, SyncActionView::Finished)
        } else if self.resident_failed {
            (SyncView {
                next_resident: self.next_resident + 1,
                resident_failed: false,
                ..self
            }).upload()
        } else {
            (SyncView { state: SyncState::ContinueBatch, ..self }, SyncActionView::Finished)
        }
    }

    /// The step of the machine: the next state and the action, for every
    /// state and event.
    pub open spec fn next(self, event: SyncEventView) -> (SyncView, SyncActionView) {
        match (self.state, event) {
            (SyncState::Pending, SyncEventView::Advance) => self.begin(),
            (SyncState::CreateAttempted, SyncEventView::Reply(reply)) => self.after_creation(
                reply,
            ),
            (SyncState::Created, SyncEventView::Advance) => self.upload(),
            (SyncState::Conflict, SyncEventView::Advance) => self.search(),
            (SyncState::Searching, SyncEventView::Reply(reply)) => self.after_search(reply),
            (SyncState::Found, SyncEventView::Advance) => self.begin_purge(),
            (SyncState::Purging, SyncEventView::Reply(reply)) => if self.deleting {
                self.after_delete(reply)
            } else {
                self.after_listing(reply)
            },
            (SyncState::Reconciled, SyncEventView::Advance) => self.upload(),
            (SyncState::ResidentUpload, SyncEventView::Reply(reply)) => self.after_resident(
                reply,
            ),
            (SyncState::Fatal, SyncEventView::Operator(go_on)) => self.after_decision(go_on),
            (SyncState::Done, _) => (self, SyncActionView::Finished),
            (SyncState::ContinueBatch, _) => (self, SyncActionView::Finished),
            (SyncState::AbortBatch, _) => (self, SyncActionView::Finished),
            _ => self.unexpected(),
        }
    }
}

/// Whether an action sends a request to the service.
pub open spec fn is_request(action: SyncActionView) -> bool {
    action is SubmitOwner || action is SearchTicket || action is ListDependents
        || action is DeleteDependents || action is SubmitResident
}

/// A step keeps a machine well formed and follows an arrow of the diagram
/// or stays.
pub proof fn lemma_step_follows_diagram(machine: SyncView, event: SyncEventView)
    requires
        machine.wf(),
    ensures
        machine.next(event).0.wf(),
        machine.state.leads_to(machine.next(event).0.state),
        machine.next(event).0.household == machine.household,
{
}

/// Every step that the machine takes brings it nearer to rest: unless the
/// event was not the one awaited, the bound on the steps left drops.  So
/// no answer of the service, however often repeated, keeps a household
/// going for ever; the purge in particular gives up after
/// [`MAX_PURGE_ROUNDS`] rounds.
pub proof fn lemma_step_makes_progress(machine: SyncView, event: SyncEventView)
    requires
        machine.wf(),
        !machine.state.is_final(),
        machine.next(event).1 != SyncActionView::Unexpected,
    ensures
        0 <= machine.next(event).0.steps_left() < machine.steps_left(),
{
}

/// The purge drains before residents are uploaded: a step reaches
/// `Reconciled` only from a listing, while purging, that reports no
/// dependent left; and residents are uploaded only from `Created`, from
/// `Reconciled`, or after another resident.
pub proof fn lemma_purge_drains_first(machine: SyncView, event: SyncEventView)
    requires
        machine.wf(),
    ensures
        machine.state != SyncState::Reconciled && machine.next(event).0.state
            == SyncState::Reconciled ==> machine.state == SyncState::Purging && !machine.deleting
            && event is Reply && purge_page(event->Reply_0) == PurgePageView::Empty,
        machine.next(event).1 is SubmitResident ==> machine.state == SyncState::Created
            || machine.state == SyncState::Reconciled || machine.state
            == SyncState::ResidentUpload || (machine.state == SyncState::Fatal
            && machine.resident_failed),
{
}

/// Whether the machine is past the point at which a purge can happen: the
/// household has been created or reconciled, or the machine is at rest.
pub open spec fn is_past_purge(machine: SyncView) -> bool {
    machine.state == SyncState::Created || machine.state == SyncState::Reconciled
        || machine.state == SyncState::ResidentUpload || (machine.state == SyncState::Fatal
        && machine.resident_failed) || machine.state.is_final()
}

/// Whether an action belongs to the purge: a listing or a delete.
pub open spec fn is_purge_action(action: SyncActionView) -> bool {
    action is ListDependents || action is DeleteDependents
}

/// A household that the service created afresh is never purged, and none
/// is purged again once it is reconciled: past the purge a machine stays
/// past it, and the only requests left are residents.
pub proof fn lemma_no_purge_past_creation(machine: SyncView, event: SyncEventView)
    requires
        machine.wf(),
        is_past_purge(machine),
    ensures
        is_past_purge(machine.next(event).0),
        !is_purge_action(machine.next(event).1),
        is_request(machine.next(event).1) ==> machine.next(event).1 is SubmitResident,
{
}

/// The purge takes turns: a page that lists dependents is answered with
/// the delete of exactly the ids on it, and a delete that the service
/// answered readably with a new listing for the same record id.  While
/// the purge runs, a delete is asked for only after a listing and a
/// listing only after a delete.
pub proof fn lemma_purge_takes_turns(machine: SyncView, reply: Seq<char>)
    requires
        machine.wf(),
        machine.state == SyncState::Purging,
    ensures
        ({
            let (after, action) = machine.next(SyncEventView::Reply(reply));
            &&& !machine.deleting && purge_page(reply) is Dependents && machine.purge_rounds
                < MAX_PURGE_ROUNDS ==> after.state == SyncState::Purging && after.deleting
                && action == (SyncActionView::DeleteDependents {
                ids: purge_page(reply)->ids,
            })
            &&& machine.deleting && reply_kind(reply) != ReplyKind::Malformed ==> after.state
                == SyncState::Purging && !after.deleting && action
                == (SyncActionView::ListDependents { ma_phieu: machine.ma_phieu })
            &&& action is DeleteDependents ==> !machine.deleting
            &&& action is ListDependents ==> machine.deleting
        }),
{
}

/// Every resident that is submitted carries the record id that the
/// machine holds, in its encoded form, and is the resident at the position
/// that the machine has reached.
pub proof fn lemma_residents_are_bound(machine: SyncView, event: SyncEventView)
    requires
        machine.wf(),
        machine.next(event).1 is SubmitResident,
    ensures
        ({
            let (after, action) = machine.next(event);
            let index = action->SubmitResident_index;
            let bundle = action->SubmitResident_bundle;
            &&& after.state == SyncState::ResidentUpload
            &&& index == after.next_resident
            &&& index < machine.household.residents.len()
            &&& bundle == machine.household.residents[index as int].encoded_for(after.ma_phieu)
            &&& bundle.resident.ma_phieu == Some(base64_text(after.ma_phieu))
            &&& after.ma_phieu == machine.ma_phieu
        }),
{
}

/// A machine at rest stays at rest and sends nothing; in particular no
/// request follows once the operator has stopped the batch.
pub proof fn lemma_rest_is_final(machine: SyncView, event: SyncEventView)
    requires
        machine.state.is_final(),
    ensures
        machine.next(event) == (machine, SyncActionView::Finished),
        !is_request(machine.next(event).1),
{
}

/// The operator's refusal stops the machine at once: from `Fatal`, the
/// answer "stop" leads to `AbortBatch` and sends nothing.
pub proof fn lemma_refusal_aborts(machine: SyncView)
    requires
        machine.state == SyncState::Fatal,
    ensures
        machine.next(SyncEventView::Operator(false)).0.state == SyncState::AbortBatch,
        !is_request(machine.next(SyncEventView::Operator(false)).1),
{
}

impl View for HouseholdSync {
    type V = SyncView;

    closed spec fn view(&self) -> SyncView {
        SyncView {
            household: self.household@,
            state: self.state,
            ma_phieu: self.ma_phieu@,
            deleting: self.deleting,
            purge_rounds: self.purge_rounds as nat,
            next_resident: self.next_resident as nat,
            resident_failed: self.resident_failed,
            owner_uploaded: self.owner_uploaded,
            residents_uploaded: self.residents_uploaded as nat,
        }
    }
}

impl HouseholdSync {
    /// A machine for the household, at the start.
    pub fn new(household: Household) -> (r: Self)
        ensures
            r@ == SyncView::initial(household@),
            r@.wf(),
    {
        HouseholdSync {
            household,
            state: SyncState::Pending,
            ma_phieu: String::new(),
            deleting: false,
            purge_rounds: 0,
            next_resident: 0,
            resident_failed: false,
            owner_uploaded: false,
            residents_uploaded: 0,
        }
    }

    /// The state.
    pub fn state(&self) -> (r: SyncState)
        ensures
            r == self@.state,
    {
        self.state
    }

    /// The record id of the household; empty until created or found.
    pub fn ma_phieu(&self) -> (r: &String)
        ensures
            r@ == self@.ma_phieu,
    {
        &self.ma_phieu
    }

    /// The household.
    pub fn household(&self) -> (r: &Household)
        ensures
            r@ == self@.household,
    {
        &self.household
    }

    /// Number of residents dealt with so far: the position of the
    /// resident that is submitted next or is in flight.
    pub fn next_resident(&self) -> (r: usize)
        ensures
            r == self@.next_resident,
    {
        self.next_resident
    }

    /// Whether the household counts as uploaded.
    pub fn owner_uploaded(&self) -> (r: bool)
        ensures
            r == self@.owner_uploaded,
    {
        self.owner_uploaded
    }

    /// Number of residents that the service accepted.
    pub fn residents_uploaded(&self) -> (r: usize)
        ensures
            r == self@.residents_uploaded,
    {
        self.residents_uploaded
    }

    /// Whether the machine has come to rest.
    pub fn is_final(&self) -> (r: bool)
        ensures
            r == self@.state.is_final(),
    {
        self.state == SyncState::Done || self.state == SyncState::ContinueBatch || self.state
            == SyncState::AbortBatch
    }

    fn unexpected(&self) -> (action: SyncAction)
        ensures
            (self@, action@) == self@.unexpected(),
    {
        SyncAction::Unexpected
    }

    fn fail(&mut self, resident_failed: bool, reply: String) -> (action: SyncAction)
        requires
            old(self)@.wf(),
            resident_failed ==> old(self)@.next_resident < old(self)@.household.residents.len(),
            old(self)@.household.owner is Some,
        ensures
            final(self)@.wf(),
            (final(self)@, action@) == old(self)@.fail(resident_failed, reply@),
    {
        self.state = SyncState::Fatal;
        self.resident_failed = resident_failed;
        SyncAction::Confirm { reply }
    }

    fn upload(&mut self) -> (action: SyncAction)
        requires
            old(self)@.next_resident <= old(self)@.household.residents.len(),
            old(self)@.residents_uploaded <= old(self)@.next_resident,
            old(self)@.purge_rounds <= MAX_PURGE_ROUNDS,
            old(self)@.household.owner is Some,
        ensures
            final(self)@.wf(),
            (final(self)@, action@) == old(self)@.upload(),
    {
        if self.next_resident < self.household.residents.len() {
            self.state = SyncState::ResidentUpload;
            let bundle = self.household.residents[self.next_resident].encoded_for(
                self.ma_phieu.as_str(),
            );
            SyncAction::SubmitResident { index: self.next_resident, bundle }
        } else {
            self.state = SyncState::Done;
            SyncAction::Finished
        }
    }

    fn begin(&mut self) -> (action: SyncAction)
        requires
            old(self)@.wf(),
            old(self)@.state == SyncState::Pending,
        ensures
            final(self)@.wf(),
            (final(self)@, action@) == old(self)@.begin(),
    {
        match &self.household.owner {
            Some(owner) => {
                let encoded = owner.encode();
                self.state = SyncState::CreateAttempted;
                SyncAction::SubmitOwner { owner: encoded }
            },
            None => {
                self.state = SyncState::Done;
                SyncAction::Finished
            },
        }
    }

    fn after_creation(&mut self, reply: String) -> (action: SyncAction)
        requires
            old(self)@.wf(),
            old(self)@.state == SyncState::CreateAttempted,
        ensures
            final(self)@.wf(),
            (final(self)@, action@) == old(self)@.after_creation(reply@),
    {
        match read_creation_reply(reply.as_str()) {
            CreationOutcome::Created { ma_phieu } => {
                self.state = SyncState::Created;
                self.ma_phieu = ma_phieu;
                self.owner_uploaded = true;
                SyncAction::Advance
            },
            CreationOutcome::Conflict => {
                self.state = SyncState::Conflict;
                SyncAction::Advance
            },
            CreationOutcome::Rejected => self.fail(false, reply),
        }
    }

    fn search(&mut self) -> (action: SyncAction)
        requires
            old(self)@.wf(),
            old(self)@.state == SyncState::Conflict,
        ensures
            final(self)@.wf(),
            (final(self)@, action@) == old(self)@.search(),
    {
        match &self.household.owner {
            Some(owner) => {
                let so_phieu = owner.so_phieu.clone();
                self.state = SyncState::Searching;
                SyncAction::SearchTicket { so_phieu }
            },
            None => self.unexpected(),
        }
    }

    fn after_search(&mut self, reply: String) -> (action: SyncAction)
        requires
            old(self)@.wf(),
            old(self)@.state == SyncState::Searching,
        ensures
            final(self)@.wf(),
            (final(self)@, action@) == old(self)@.after_search(reply@),
    {
        match find_record_id(reply.as_str()) {
            Some(ma_phieu) => {
                self.state = SyncState::Found;
                self.ma_phieu = ma_phieu;
                SyncAction::Advance
            },
            None => self.fail(false, reply),
        }
    }

    fn begin_purge(&mut self) -> (action: SyncAction)
        requires
            old(self)@.wf(),
            old(self)@.state == SyncState::Found,
        ensures
            final(self)@.wf(),
            (final(self)@, action@) == old(self)@.begin_purge(),
    {
        self.state = SyncState::Purging;
        self.deleting = false;
        self.purge_rounds = 0;
        SyncAction::ListDependents { ma_phieu: self.ma_phieu.clone() }
    }

    fn after_listing(&mut self, reply: String) -> (action: SyncAction)
        requires
            old(self)@.wf(),
            old(self)@.state == SyncState::Purging,
        ensures
            final(self)@.wf(),
            (final(self)@, action@) == old(self)@.after_listing(reply@),
    {
        match read_purge_page(reply.as_str()) {
            PurgePage::Empty => {
                self.state = SyncState::Reconciled;
                self.owner_uploaded = true;
                SyncAction::Advance
            },
            PurgePage::Dependents { ids } => {
                if self.purge_rounds < MAX_PURGE_ROUNDS {
                    self.deleting = true;
                    self.purge_rounds = self.purge_rounds + 1;
                    SyncAction::DeleteDependents { ids }
                } else {
                    self.fail(false, reply)
                }
            },
            PurgePage::Malformed => self.fail(false, reply),
        }
    }

    fn after_delete(&mut self, reply: String) -> (action: SyncAction)
        requires
            old(self)@.wf(),
            old(self)@.state == SyncState::Purging,
        ensures
            final(self)@.wf(),
            (final(self)@, action@) == old(self)@.after_delete(reply@),
    {
        match read_reply_kind(reply.as_str()) {
            ReplyKind::Malformed => self.fail(false, reply),
            _ => {
                self.deleting = false;
                SyncAction::ListDependents { ma_phieu: self.ma_phieu.clone() }
            },
        }
    }

    fn after_resident(&mut self, reply: String) -> (action: SyncAction)
        requires
            old(self)@.wf(),
            old(self)@.state == SyncState::ResidentUpload,
        ensures
            final(self)@.wf(),
            (final(self)@, action@) == old(self)@.after_resident(reply@),
    {
        if read_success(reply.as_str()) {
            let residents: usize = self.household.residents.len();
            assert(self.next_resident < residents);
            self.next_resident = self.next_resident + 1;
            self.residents_uploaded = self.residents_uploaded + 1;
            self.upload()
        } else {
            self.fail(true, reply)
        }
    }

    fn after_decision(&mut self, go_on: bool) -> (action: SyncAction)
        requires
            old(self)@.wf(),
            old(self)@.state == SyncState::Fatal,
        ensures
            final(self)@.wf(),
            (final(self)@, action@) == old(self)@.after_decision(go_on),
    {
        if !go_on {
            self.state = SyncState::AbortBatch;
            SyncAction::Finished
        } else if self.resident_failed {
            let residents: usize = self.household.residents.len();
            assert(self.next_resident < residents);
            self.next_resident = self.next_resident + 1;
            self.resident_failed = false;
            self.upload()
        } else {
            self.state = SyncState::ContinueBatch;
            SyncAction::Finished
        }
    }

    /// Takes one step: moves to the state that the event leads to and
    /// answers with the action to perform.  An event that the state does
    /// not wait for changes nothing.  Every step follows an arrow of the
    /// diagram or stays, and a machine at rest stays at rest.
    pub fn step(&mut self, event: SyncEvent) -> (action: SyncAction)
        requires
            old(self)@.wf(),
        ensures
            final(self)@.wf(),
            (final(self)@, action@) == old(self)@.next(event@),
            old(self)@.state.leads_to(final(self)@.state),
            final(self)@.household == old(self)@.household,
    {
        match (self.state, event) {
            (SyncState::Pending, SyncEvent::Advance) => self.begin(),
            (SyncState::CreateAttempted, SyncEvent::Reply(reply)) => self.after_creation(reply),
            (SyncState::Created, SyncEvent::Advance) => self.upload(),
            (SyncState::Conflict, SyncEvent::Advance) => self.search(),
            (SyncState::Searching, SyncEvent::Reply(reply)) => self.after_search(reply),
            (SyncState::Found, SyncEvent::Advance) => self.begin_purge(),
            (SyncState::Purging, SyncEvent::Reply(reply)) => {
                if self.deleting {
                    self.after_delete(reply)
                } else {
                    self.after_listing(reply)
                }
            },
            (SyncState::Reconciled, SyncEvent::Advance) => self.upload(),
            (SyncState::ResidentUpload, SyncEvent::Reply(reply)) => self.after_resident(reply),
            (SyncState::Fatal, SyncEvent::Operator(go_on)) => self.after_decision(go_on),
            (SyncState::Done, _) => SyncAction::Finished,
            (SyncState::ContinueBatch, _) => SyncAction::Finished,
            (SyncState::AbortBatch, _) => SyncAction::Finished,
            _ => self.unexpected(),
        }
    }
}

} // verus!
