//! An antagonist that exercises the lifecycle of a snapshot: create, delete.

use crate::actor::disk::{blank_disk, blank_disk_body, DiskState};
use crate::actor::policy::{may_select, select_action, Action, BailReason, ResourceState};
use crate::actor::{
    finish, no_such_action, observe, observed, out_of_turn, outcome, reject_action, reject_event,
    AntagonistError, AntagonistErrorView, Command, CommandView, Event, Request, RequestView,
    MAX_DELAY_MILLIS,
};
use crate::util::{decimal, to_decimal, ApiError};
use vstd::prelude::*;
use vstd::string::*;

verus! {

/// The state that the control plane reports of a snapshot.
#[derive(Clone, Copy, Debug, PartialEq, Eq, Structural)]
pub enum SnapshotState {
    /// The snapshot is being taken.
    Creating,
    /// The snapshot is complete.
    Ready,
    /// The snapshot has failed.
    Faulted,
    /// The snapshot has been deleted.
    Destroyed,
}

impl SnapshotState {
    /// The state's name, as it appears in reports.
    pub open spec fn spec_name(self) -> Seq<char> {
        match self {
            SnapshotState::Creating => "Creating"@,
            SnapshotState::Ready => "Ready"@,
            SnapshotState::Faulted => "Faulted"@,
            SnapshotState::Destroyed => "Destroyed"@,
        }
    }

    /// The state's name, as it appears in reports.
    pub fn name(&self) -> (name: &'static str)
        ensures
            name@ == self.spec_name(),
    {
        match self {
            SnapshotState::Creating => "Creating",
            SnapshotState::Ready => "Ready",
            SnapshotState::Faulted => "Faulted",
            SnapshotState::Destroyed => "Destroyed",
        }
    }
}

/// The parameters of a request to take a snapshot of a disk.
#[derive(Clone, Debug, PartialEq, Eq)]
pub struct SnapshotCreate {
    /// The snapshot's name.
    pub name: String,
    /// Free-form text about the snapshot.
    pub description: String,
    /// The name of the disk to take the snapshot of.
    pub disk: String,
}

/// What a [`SnapshotCreate`] asks for.
pub struct SnapshotCreateView {
    pub name: Seq<char>,
    pub description: Seq<char>,
    pub disk: Seq<char>,
}

impl View for SnapshotCreate {
    type V = SnapshotCreateView;

    open spec fn view(&self) -> SnapshotCreateView {
        SnapshotCreateView { name: self.name@, description: self.description@, disk: self.disk@ }
    }
}

/// The parameters used to configure a snapshot antagonist.
#[derive(Clone, Debug, PartialEq, Eq)]
pub struct Params {
    /// The name of the project to create this antagonist's snapshots in.
    pub project: String,
    /// The name of the disk this antagonist should act on.
    pub disk_name: String,
    /// The name of the snapshot this antagonist should act on.
    pub snapshot_name: String,
}

/// Where a snapshot antagonist stands in its cycle.
#[derive(Clone, Copy, Debug, PartialEq, Eq)]
pub enum Stage {
    /// No cycle is under way.
    Idle,
    /// The backing disk is being fetched.
    CheckingDisk,
    /// The backing disk did not exist and is being created.
    CreatingDisk,
    /// The snapshot is being fetched.
    Viewing,
    /// The snapshot did not exist and is being created; the answer ends the
    /// cycle.
    CreatingAbsent,
    /// The snapshot was observed in this state; the delay before the choice
    /// runs.
    Settling(SnapshotState),
    /// The chosen call is under way.
    Acting,
    /// The chosen call returned this; the delay after it runs.
    Cooling(Result<(), ApiError>),
}

/// The internal state for a snapshot antagonist.
#[derive(Clone, Debug, PartialEq, Eq)]
pub struct SnapshotActor {
    project: String,
    disk_name: String,
    snapshot_name: String,
    snapshot_name_counter: u64,
    stage: Stage,
}

/// What a [`SnapshotActor`] holds.
pub struct SnapshotActorView {
    pub project: Seq<char>,
    pub disk_name: Seq<char>,
    pub snapshot_name: Seq<char>,
    /// How many times the snapshot was observed destroyed. It is written, in
    /// decimal, behind the snapshot's name.
    pub counter: u64,
    pub stage: Stage,
}

impl SnapshotActorView {
    /// This antagonist at another stage of its cycle.
    pub open spec fn at(self, stage: Stage) -> SnapshotActorView {
        SnapshotActorView { stage, ..self }
    }

    /// The name under which the snapshot is fetched, created and deleted now:
    /// the configured name, followed by the counter in decimal.
    pub open spec fn current_name(self) -> Seq<char> {
        self.snapshot_name + decimal(self.counter as nat)
    }

    /// The request that fetches the backing disk.
    pub open spec fn disk_view_request(self) -> RequestView {
        RequestView::DiskView { project: self.project, disk: self.disk_name }
    }

    /// The request that creates the backing disk.
    pub open spec fn disk_create_request(self) -> RequestView {
        RequestView::DiskCreate { project: self.project, body: blank_disk(self.disk_name) }
    }

    /// The request that fetches the snapshot.
    pub open spec fn view_request(self) -> RequestView {
        RequestView::SnapshotView { project: self.project, snapshot: self.current_name() }
    }

    /// The request that takes the snapshot of the backing disk.
    pub open spec fn create_request(self) -> RequestView {
        RequestView::SnapshotCreate {
            project: self.project,
            body: SnapshotCreateView {
                name: self.current_name(),
                description: self.current_name(),
                disk: self.disk_name,
            },
        }
    }

    /// The request that deletes the snapshot.
    pub open spec fn delete_request(self) -> RequestView {
        RequestView::SnapshotDelete { project: self.project, snapshot: self.current_name() }
    }

    /// Whether the answer to `event` takes a draw: it does when the delay
    /// before the choice is over.
    pub open spec fn draws(self, event: Event) -> bool {
        self.stage is Settling && event is Delayed
    }

    /// Whether the antagonist can answer `event`: where the answer takes a
    /// draw for a snapshot that was observed destroyed, the counter has to have
    /// room for one more.
    pub open spec fn can_answer(self, event: Event) -> bool {
        self.draws(event) && self.stage == Stage::Settling(SnapshotState::Destroyed)
            ==> self.counter < u64::MAX
    }

    /// This antagonist once it has taken note of the state that it observed: a
    /// destroyed snapshot moves the counter on by one, so that the next
    /// snapshot gets a name of its own; any other state leaves it alone.
    pub open spec fn noting(self, state: SnapshotState) -> SnapshotActorView {
        if state == SnapshotState::Destroyed {
            SnapshotActorView { counter: (self.counter + 1) as u64, ..self }
        } else {
            self
        }
    }

    /// The answer to an event that takes no draw: the antagonist afterwards,
    /// and what it tells the driver.
    pub open spec fn step(self, event: Event) -> (SnapshotActorView, CommandView) {
        match (self.stage, event) {
            (Stage::Idle, Event::Begin) => (
                self.at(Stage::CheckingDisk),
                CommandView::Call(self.disk_view_request()),
            ),
            (Stage::CheckingDisk, Event::DiskViewed(reply)) => match observed(reply) {
                Ok(Some(_)) => (self.at(Stage::Viewing), CommandView::Call(self.view_request())),
                Ok(None) => (
                    self.at(Stage::CreatingDisk),
                    CommandView::Call(self.disk_create_request()),
                ),
                Err(e) => (
                    self.at(Stage::Idle),
                    CommandView::Finish(Err(AntagonistErrorView::ApiError(e))),
                ),
            },
            (Stage::CreatingDisk, Event::Called(result)) => match result {
                Ok(()) => (self.at(Stage::Viewing), CommandView::Call(self.view_request())),
                Err(e) => (
                    self.at(Stage::Idle),
                    CommandView::Finish(Err(AntagonistErrorView::ApiError(e))),
                ),
            },
            (Stage::Viewing, Event::SnapshotViewed(reply)) => match observed(reply) {
                Ok(Some(state)) => (
                    self.at(Stage::Settling(state)),
                    CommandView::Delay { max_millis: MAX_DELAY_MILLIS },
                ),
                Ok(None) => (
                    self.at(Stage::CreatingAbsent),
                    CommandView::Call(self.create_request()),
                ),
                Err(e) => (
                    self.at(Stage::Idle),
                    CommandView::Finish(Err(AntagonistErrorView::ApiError(e))),
                ),
            },
            (Stage::CreatingAbsent, Event::Called(result)) => (
                self.at(Stage::Idle),
                CommandView::Finish(outcome(result)),
            ),
            (Stage::Acting, Event::Called(result)) => (
                self.at(Stage::Cooling(result)),
                CommandView::Delay { max_millis: MAX_DELAY_MILLIS },
            ),
            (Stage::Cooling(result), Event::Delayed) => (
                self.at(Stage::Idle),
                CommandView::Finish(outcome(result)),
            ),
            _ => (self.at(Stage::Idle), out_of_turn()),
        }
    }

    /// What follows from the policy's answer: the antagonist afterwards, and
    /// what it tells the driver.
    pub open spec fn act(self, action: Action) -> (SnapshotActorView, CommandView) {
        match action {
            Action::Wait => (
                self.at(Stage::Cooling(Ok(()))),
                CommandView::Delay { max_millis: MAX_DELAY_MILLIS },
            ),
            Action::Create => (self.at(Stage::Acting), CommandView::Call(self.create_request())),
            Action::Delete => (self.at(Stage::Acting), CommandView::Call(self.delete_request())),
            Action::Bail { reason: BailReason::InvalidState { state } } => (
                self.at(Stage::Idle),
                CommandView::Finish(
                    Err(AntagonistErrorView::InvalidState { resource: self.snapshot_name, state }),
                ),
            ),
            Action::Start | Action::Stop => (self.at(Stage::Idle), no_such_action()),
        }
    }
}

impl View for SnapshotActor {
    type V = SnapshotActorView;

    closed spec fn view(&self) -> SnapshotActorView {
        SnapshotActorView {
            project: self.project@,
            disk_name: self.disk_name@,
            snapshot_name: self.snapshot_name@,
            counter: self.snapshot_name_counter,
            stage: self.stage,
        }
    }
}

impl SnapshotActor {
    /// Creates a new snapshot antagonist, between cycles, with its counter at
    /// zero.
    pub fn new(params: Params) -> (actor: SnapshotActor)
        ensures
            actor@ == (SnapshotActorView {
                project: params.project@,
                disk_name: params.disk_name@,
                snapshot_name: params.snapshot_name@,
                counter: 0,
                stage: Stage::Idle,
            }),
    {
        SnapshotActor {
            project: params.project,
            disk_name: params.disk_name,
            snapshot_name: params.snapshot_name,
            snapshot_name_counter: 0,
            stage: Stage::Idle,
        }
    }

    /// Where this antagonist stands in its cycle.
    pub fn stage(&self) -> (stage: Stage)
        ensures
            stage == self@.stage,
    {
        self.stage
    }

    /// How many times this antagonist has observed its snapshot destroyed.
    pub fn counter(&self) -> (counter: u64)
        ensures
            counter == self@.counter,
    {
        self.snapshot_name_counter
    }

    /// Tells whether this antagonist can answer `event`.
    pub fn accepts(&self, event: &Event) -> (ok: bool)
        ensures
            ok == self@.can_answer(*event),
    {
        match (self.stage, event) {
            (Stage::Settling(SnapshotState::Destroyed), Event::Delayed) => {
                self.snapshot_name_counter < u64::MAX
            },
            _ => true,
        }
    }

    /// The name under which the snapshot is fetched, created and deleted now.
    pub fn get_snapshot_name(&self) -> (name: String)
        ensures
            name@ == self@.current_name(),
    {
        let digits = to_decimal(self.snapshot_name_counter);
        self.snapshot_name.clone().concat(digits.as_str())
    }

    /// The request that fetches the backing disk.
    pub fn view_backing_disk(&self) -> (request: Request)
        ensures
            request@ == self@.disk_view_request(),
    {
        Request::DiskView { project: self.project.clone(), disk: self.disk_name.clone() }
    }

    /// The request that creates the backing disk.
    pub fn create_backing_disk(&self) -> (request: Request)
        ensures
            request@ == self@.disk_create_request(),
    {
        Request::DiskCreate {
            project: self.project.clone(),
            body: blank_disk_body(&self.disk_name),
        }
    }

    /// Reads the answer to the request that fetches the snapshot: its state
    /// where it exists, `None` where it does not, the failure for any other
    /// failure.
    pub fn get_snapshot_state(reply: Result<SnapshotState, ApiError>) -> (out: Result<
        Option<SnapshotState>,
        ApiError,
    >)
        ensures
            out == observed(reply),
    {
        observe(reply)
    }

    /// The request that fetches this antagonist's snapshot.
    pub fn view_snapshot(&self) -> (request: Request)
        ensures
            request@ == self@.view_request(),
    {
        Request::SnapshotView { project: self.project.clone(), snapshot: self.get_snapshot_name() }
    }

    /// The request that takes this antagonist's snapshot.
    pub fn create_snapshot(&self) -> (request: Request)
        ensures
            request@ == self@.create_request(),
    {
        Request::SnapshotCreate {
            project: self.project.clone(),
            body: SnapshotCreate {
                name: self.get_snapshot_name(),
                description: self.get_snapshot_name(),
                disk: self.disk_name.clone(),
            },
        }
    }

    /// The request that deletes this antagonist's snapshot.
    pub fn delete_snapshot(&self) -> (request: Request)
        ensures
            request@ == self@.delete_request(),
    {
        Request::SnapshotDelete {
            project: self.project.clone(),
            snapshot: self.get_snapshot_name(),
        }
    }

    /// Selects an action for this antagonist to take given that its snapshot
    /// was observed to be in the supplied `state`. A destroyed snapshot moves
    /// the counter on by one before the draw; no other state touches it.
    pub fn get_next_action(&mut self, state: SnapshotState) -> (action: Action)
        requires
            state == SnapshotState::Destroyed ==> old(self)@.counter < u64::MAX,
        ensures
            final(self)@ == old(self)@.noting(state),
            may_select(ResourceState::Snapshot(state), action),
    {
        if state == SnapshotState::Destroyed {
            self.snapshot_name_counter = self.snapshot_name_counter + 1;
        }
        select_action(ResourceState::Snapshot(state))
    }

    /// Carries out the policy's answer: sits the delay out for a wait, issues
    /// the call for a create or a delete, and fails the cycle for a bail.
    pub fn act(&mut self, action: Action) -> (command: Command)
        ensures
            (final(self)@, command@) == old(self)@.act(action),
    {
        match action {
            Action::Wait => {
                self.stage = Stage::Cooling(Ok(()));
                Command::Delay { max_millis: MAX_DELAY_MILLIS }
            },
            Action::Create => {
                self.stage = Stage::Acting;
                Command::Call(self.create_snapshot())
            },
            Action::Delete => {
                self.stage = Stage::Acting;
                Command::Call(self.delete_snapshot())
            },
            Action::Bail { reason: BailReason::InvalidState { state } } => {
                self.stage = Stage::Idle;
                Command::Finish(
                    Err(
                        AntagonistError::InvalidState {
                            resource: self.snapshot_name.clone(),
                            state,
                        },
                    ),
                )
            },
            Action::Start | Action::Stop => {
                self.stage = Stage::Idle;
                reject_action()
            },
        }
    }

    /// Advances the cycle by one event and says what the driver does next.
    ///
    /// A cycle first makes sure that the backing disk exists: it fetches the
    /// disk and, where there is none, asks for a blank one; a failure of either
    /// ends the cycle. Then it fetches the snapshot. Where that does not exist,
    /// the cycle asks for it to be taken and ends with the answer. Where the
    /// fetch fails otherwise, the cycle ends with the failure. Where the
    /// snapshot exists, the cycle sits a delay out, lets the policy choose,
    /// carries the choice out, sits a second delay out and ends with what the
    /// call returned. An event that the antagonist did not wait for ends the
    /// cycle with an error.
    pub fn antagonize(&mut self, event: Event) -> (command: Command)
        requires
            old(self)@.can_answer(event),
        ensures
            old(self)@.draws(event) ==> exists|action: Action|
                may_select(ResourceState::Snapshot(old(self)@.stage->Settling_0), action) && (
                final(self)@,
                command@,
            ) == #[trigger] old(self)@.noting(old(self)@.stage->Settling_0).act(action),
            !old(self)@.draws(event) ==> (final(self)@, command@) == old(self)@.step(event),
    {
        match (self.stage, event) {
            (Stage::Idle, Event::Begin) => {
                self.stage = Stage::CheckingDisk;
                Command::Call(self.view_backing_disk())
            },
            (Stage::CheckingDisk, Event::DiskViewed(reply)) => match observe(reply) {
                Ok(Some(_)) => {
                    self.stage = Stage::Viewing;
                    Command::Call(self.view_snapshot())
                },
                Ok(None) => {
                    self.stage = Stage::CreatingDisk;
                    Command::Call(self.create_backing_disk())
                },
                Err(e) => {
                    self.stage = Stage::Idle;
                    Command::Finish(Err(AntagonistError::ApiError(e)))
                },
            },
            (Stage::CreatingDisk, Event::Called(result)) => match result {
                Ok(()) => {
                    self.stage = Stage::Viewing;
                    Command::Call(self.view_snapshot())
                },
                Err(e) => {
                    self.stage = Stage::Idle;
                    Command::Finish(Err(AntagonistError::ApiError(e)))
                },
            },
            (Stage::Viewing, Event::SnapshotViewed(reply)) => match Self::get_snapshot_state(
                reply,
            ) {
                Ok(Some(state)) => {
                    self.stage = Stage::Settling(state);
                    Command::Delay { max_millis: MAX_DELAY_MILLIS }
                },
                Ok(None) => {
                    self.stage = Stage::CreatingAbsent;
                    Command::Call(self.create_snapshot())
                },
                Err(e) => {
                    self.stage = Stage::Idle;
                    Command::Finish(Err(AntagonistError::ApiError(e)))
                },
            },
            (Stage::CreatingAbsent, Event::Called(result)) => {
                self.stage = Stage::Idle;
                finish(result)
            },
            (Stage::Settling(state), Event::Delayed) => {
                let ghost before = self@;
                let action = self.get_next_action(state);
                let ghost noted = self@;
                let command = self.act(action);
                assert((self@, command@) == before.noting(state).act(action));
                command
            },
            (Stage::Acting, Event::Called(result)) => {
                self.stage = Stage::Cooling(result);
                Command::Delay { max_millis: MAX_DELAY_MILLIS }
            },
            (Stage::Cooling(result), Event::Delayed) => {
                self.stage = Stage::Idle;
                finish(result)
            },
            _ => {
                self.stage = Stage::Idle;
                reject_event()
            },
        }
    }
}

/// A snapshot that does not exist is created, and nothing is drawn: the
/// answer to a fetch that found no snapshot is the request that takes the
/// snapshot of the backing disk under the current name, it takes no draw, and
/// whatever that request returns ends the cycle as its outcome, again without
/// a draw.
pub proof fn lemma_absent_snapshot_is_created(
    actor: SnapshotActorView,
    reply: Result<SnapshotState, ApiError>,
    result: Result<(), ApiError>,
)
    requires
        actor.stage is Viewing,
        observed(reply) == Ok::<Option<SnapshotState>, ApiError>(None),
    ensures
        !actor.draws(Event::SnapshotViewed(reply)),
        actor.step(Event::SnapshotViewed(reply)) == (
            actor.at(Stage::CreatingAbsent),
            CommandView::Call(actor.create_request()),
        ),
        !actor.at(Stage::CreatingAbsent).draws(Event::Called(result)),
        actor.at(Stage::CreatingAbsent).step(Event::Called(result)) == (
            actor.at(Stage::Idle),
            CommandView::Finish(outcome(result)),
        ),
{
}

/// A backing disk that does not exist is created before any snapshot is
/// touched: the answer to a fetch that found no disk is the request for a
/// blank disk of the default shape under the backing disk's name, and the
/// snapshot is fetched only once that request has succeeded.
pub proof fn lemma_backing_disk_comes_first(
    actor: SnapshotActorView,
    reply: Result<DiskState, ApiError>,
    result: Result<(), ApiError>,
)
    requires
        actor.stage is CheckingDisk,
        observed(reply) == Ok::<Option<DiskState>, ApiError>(None),
    ensures
        actor.step(Event::DiskViewed(reply)) == (
            actor.at(Stage::CreatingDisk),
            CommandView::Call(
                RequestView::DiskCreate {
                    project: actor.project,
                    body: blank_disk(actor.disk_name),
                },
            ),
        ),
        result is Ok ==> actor.at(Stage::CreatingDisk).step(Event::Called(result)) == (
            actor.at(Stage::Viewing),
            CommandView::Call(actor.view_request()),
        ),
        result matches Err(e) ==> actor.at(Stage::CreatingDisk).step(Event::Called(result)) == (
            actor.at(Stage::Idle),
            CommandView::Finish(Err(AntagonistErrorView::ApiError(e))),
        ),
{
}

/// The snapshot that a command names, if it names one.
pub open spec fn snapshot_named(command: CommandView) -> Option<Seq<char>> {
    match command {
        CommandView::Call(RequestView::SnapshotView { snapshot, .. }) => Some(snapshot),
        CommandView::Call(RequestView::SnapshotCreate { body, .. }) => Some(body.name),
        CommandView::Call(RequestView::SnapshotDelete { snapshot, .. }) => Some(snapshot),
        _ => None,
    }
}

/// The counter behind the snapshot's name moves only when the snapshot was
/// observed destroyed, and then by exactly one: no answer that takes no draw
/// touches it, and the answer that takes a draw raises it by one for a
/// destroyed snapshot and leaves it alone for any other state, whatever the
/// policy answers.
pub proof fn lemma_counter_counts_destroyed(
    actor: SnapshotActorView,
    event: Event,
    action: Action,
)
    requires
        actor.can_answer(event),
    ensures
        !actor.draws(event) ==> actor.step(event).0.counter == actor.counter,
        actor.draws(event) && actor.stage == Stage::Settling(SnapshotState::Destroyed)
            ==> actor.noting(actor.stage->Settling_0).act(action).0.counter == actor.counter + 1,
        actor.draws(event) && actor.stage != Stage::Settling(SnapshotState::Destroyed)
            ==> actor.noting(actor.stage->Settling_0).act(action).0.counter == actor.counter,
{
}

/// Every request that names the snapshot names it as the counter stands: the
/// snapshot that a command fetches, creates or deletes goes by the current
/// name of the antagonist that gave the command. After a destroyed snapshot
/// was observed that is the name with the counter already moved on.
pub proof fn lemma_requests_use_current_name(
    actor: SnapshotActorView,
    event: Event,
    action: Action,
)
    requires
        actor.can_answer(event),
    ensures
        !actor.draws(event) ==> (snapshot_named(actor.step(event).1) matches Some(name)
            ==> name == actor.step(event).0.current_name()),
        actor.draws(event) ==> (snapshot_named(
            actor.noting(actor.stage->Settling_0).act(action).1,
        ) matches Some(name) ==> name == actor.noting(actor.stage->Settling_0).act(
            action,
        ).0.current_name()),
{
}

/// How many answers a cycle takes at most, from a stage on, until it is over.
pub open spec fn answers_left(stage: Stage) -> nat {
    match stage {
        Stage::Idle => 7,
        Stage::CheckingDisk => 6,
        Stage::CreatingDisk => 5,
        Stage::Viewing => 4,
        Stage::Settling(_) => 3,
        Stage::Acting => 2,
        Stage::Cooling(_) => 1,
        Stage::CreatingAbsent => 1,
    }
}

/// Every cycle ends: an answer either ends the cycle, and then the antagonist
/// is between cycles again, or it brings the end nearer. So a cycle is over
/// after 7 answers at the latest, whatever the driver reports and whatever
/// the policy draws.
pub proof fn lemma_cycle_ends(actor: SnapshotActorView, event: Event, action: Action)
    requires
        actor.can_answer(event),
    ensures
        ({
            let (then, command) = if actor.draws(event) {
                actor.noting(actor.stage->Settling_0).act(action)
            } else {
                actor.step(event)
            };
            &&& command is Finish <==> then.stage is Idle
            &&& !(command is Finish) ==> answers_left(then.stage) < answers_left(actor.stage)
        }),
{
}

} // verus!
