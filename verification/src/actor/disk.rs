//! An antagonist that exercises the lifecycle of a disk: create, delete.

use crate::actor::policy::{may_select, select_action, Action, BailReason, ResourceState};
use crate::actor::{
    finish, no_such_action, observe, observed, out_of_turn, outcome, reject_action, reject_event,
    AntagonistError, AntagonistErrorView, Command, CommandView, Event, Request, RequestView,
    MAX_DELAY_MILLIS,
};
use crate::util::ApiError;
use vstd::prelude::*;

verus! {

/// The state that the control plane reports of a disk.
#[derive(Clone, Copy, Debug, PartialEq, Eq, Structural)]
pub enum DiskState {
    /// The disk is being created.
    Creating,
    /// The disk is ready and attached to no instance.
    Detached,
    /// The disk is ready to take an import.
    ImportReady,
    /// The disk is being filled from a URL.
    ImportingFromUrl,
    /// The disk is being filled by bulk writes.
    ImportingFromBulkWrites,
    /// An import into the disk is being finished.
    Finalizing,
    /// The disk is under maintenance.
    Maintenance,
    /// The disk is being attached to an instance.
    Attaching,
    /// The disk is attached to an instance.
    Attached,
    /// The disk is being detached from an instance.
    Detaching,
    /// The disk has been deleted.
    Destroyed,
    /// The disk has failed.
    Faulted,
}

impl DiskState {
    /// The state's name, as it appears in reports.
    pub open spec fn spec_name(self) -> Seq<char> {
        match self {
            DiskState::Creating => "Creating"@,
            DiskState::Detached => "Detached"@,
            DiskState::ImportReady => "ImportReady"@,
            DiskState::ImportingFromUrl => "ImportingFromUrl"@,
            DiskState::ImportingFromBulkWrites => "ImportingFromBulkWrites"@,
            DiskState::Finalizing => "Finalizing"@,
            DiskState::Maintenance => "Maintenance"@,
            DiskState::Attaching => "Attaching"@,
            DiskState::Attached => "Attached"@,
            DiskState::Detaching => "Detaching"@,
            DiskState::Destroyed => "Destroyed"@,
            DiskState::Faulted => "Faulted"@,
        }
    }

    /// The state's name, as it appears in reports.
    pub fn name(&self) -> (name: &'static str)
        ensures
            name@ == self.spec_name(),
    {
        match self {
            DiskState::Creating => "Creating",
            DiskState::Detached => "Detached",
            DiskState::ImportReady => "ImportReady",
            DiskState::ImportingFromUrl => "ImportingFromUrl",
            DiskState::ImportingFromBulkWrites => "ImportingFromBulkWrites",
            DiskState::Finalizing => "Finalizing",
            DiskState::Maintenance => "Maintenance",
            DiskState::Attaching => "Attaching",
            DiskState::Attached => "Attached",
            DiskState::Detaching => "Detaching",
            DiskState::Destroyed => "Destroyed",
            DiskState::Faulted => "Faulted",
        }
    }
}

/// The size of the blocks of a disk that an antagonist creates.
pub const BLOCK_SIZE: u32 = 512;

/// The size of a disk that an antagonist creates: one gibibyte.
pub const DISK_SIZE: u64 = 1_073_741_824;

/// The parameters of a request to create a blank disk.
#[derive(Clone, Debug, PartialEq, Eq)]
pub struct DiskCreate {
    /// Free-form text about the disk.
    pub description: String,
    /// The disk's name.
    pub name: String,
    /// The size of the disk's blocks, in bytes.
    pub block_size: u32,
    /// The size of the disk, in bytes.
    pub size: u64,
}

/// What a [`DiskCreate`] asks for.
pub struct DiskCreateView {
    pub description: Seq<char>,
    pub name: Seq<char>,
    pub block_size: u32,
    pub size: u64,
}

impl View for DiskCreate {
    type V = DiskCreateView;

    open spec fn view(&self) -> DiskCreateView {
        DiskCreateView {
            description: self.description@,
            name: self.name@,
            block_size: self.block_size,
            size: self.size,
        }
    }
}

/// The disk that an antagonist creates under a name: blank, one gibibyte, in
/// blocks of 512 bytes, described by its name.
pub open spec fn blank_disk(name: Seq<char>) -> DiskCreateView {
    DiskCreateView { description: name, name, block_size: BLOCK_SIZE, size: DISK_SIZE }
}

/// Builds the request for the disk that an antagonist creates under a name.
pub fn blank_disk_body(name: &String) -> (body: DiskCreate)
    ensures
        body@ == blank_disk(name@),
{
    DiskCreate {
        description: name.clone(),
        name: name.clone(),
        block_size: BLOCK_SIZE,
        size: DISK_SIZE,
    }
}

/// The parameters used to configure a disk antagonist.
#[derive(Clone, Debug, PartialEq, Eq)]
pub struct Params {
    /// The name of the project to create this antagonist's disk in.
    pub project: String,
    /// The name of the disk this antagonist should act on.
    pub disk_name: String,
}

/// Where a disk antagonist stands in its cycle.
#[derive(Clone, Copy, Debug, PartialEq, Eq)]
pub enum Stage {
    /// No cycle is under way.
    Idle,
    /// The disk is being fetched.
    Viewing,
    /// The disk did not exist and is being created; the answer ends the cycle.
    CreatingAbsent,
    /// The disk was observed in this state; the delay before the choice runs.
    Settling(DiskState),
    /// The chosen call is under way.
    Acting,
    /// The chosen call returned this; the delay after it runs.
    Cooling(Result<(), ApiError>),
}

/// The internal state for a disk antagonist.
#[derive(Clone, Debug, PartialEq, Eq)]
pub struct DiskActor {
    project: String,
    disk_name: String,
    stage: Stage,
}

/// What a [`DiskActor`] holds.
pub struct DiskActorView {
    pub project: Seq<char>,
    pub disk_name: Seq<char>,
    pub stage: Stage,
}

impl DiskActorView {
    /// This antagonist at another stage of its cycle.
    pub open spec fn at(self, stage: Stage) -> DiskActorView {
        DiskActorView { stage, ..self }
    }

    /// The request that fetches the disk.
    pub open spec fn view_request(self) -> RequestView {
        RequestView::DiskView { project: self.project, disk: self.disk_name }
    }

    /// The request that creates the disk.
    pub open spec fn create_request(self) -> RequestView {
        RequestView::DiskCreate { project: self.project, body: blank_disk(self.disk_name) }
    }

    /// The request that deletes the disk.
    pub open spec fn delete_request(self) -> RequestView {
        RequestView::DiskDelete { project: self.project, disk: self.disk_name }
    }

    /// Whether the answer to `event` takes a draw: it does when the delay
    /// before the choice is over.
    pub open spec fn draws(self, event: Event) -> bool {
        self.stage is Settling && event is Delayed
    }

    /// The answer to an event that takes no draw: the antagonist afterwards,
    /// and what it tells the driver.
    pub open spec fn step(self, event: Event) -> (DiskActorView, CommandView) {
        match (self.stage, event) {
            (Stage::Idle, Event::Begin) => (
                self.at(Stage::Viewing),
                CommandView::Call(self.view_request()),
            ),
            (Stage::Viewing, Event::DiskViewed(reply)) => match observed(reply) {
                Ok(Some(state)) => (
                    self.at(Stage::Settling(state)),
                    CommandView::Delay { max_millis: MAX_DELAY_MILLIS },
                ),
                Ok(None) => (
                    self.at(Stage::CreatingAbsent),
                    CommandView::Call(self.create_request()),
                ),
                Err(e) => (
                    self.at(Stage::Idle),
                    CommandView::Finish(Err(AntagonistErrorView::ApiError(e))),
                ),
            },
            (Stage::CreatingAbsent, Event::Called(result)) => (
                self.at(Stage::Idle),
                CommandView::Finish(outcome(result)),
            ),
            (Stage::Acting, Event::Called(result)) => (
                self.at(Stage::Cooling(result)),
                CommandView::Delay { max_millis: MAX_DELAY_MILLIS },
            ),
            (Stage::Cooling(result), Event::Delayed) => (
                self.at(Stage::Idle),
                CommandView::Finish(outcome(result)),
            ),
            _ => (self.at(Stage::Idle), out_of_turn()),
        }
    }

    /// What follows from the policy's answer: the antagonist afterwards, and
    /// what it tells the driver.
    pub open spec fn act(self, action: Action) -> (DiskActorView, CommandView) {
        match action {
            Action::Wait => (
                self.at(Stage::Cooling(Ok(()))),
                CommandView::Delay { max_millis: MAX_DELAY_MILLIS },
            ),
            Action::Create => (self.at(Stage::Acting), CommandView::Call(self.create_request())),
            Action::Delete => (self.at(Stage::Acting), CommandView::Call(self.delete_request())),
            Action::Bail { reason: BailReason::InvalidState { state } } => (
                self.at(Stage::Idle),
                CommandView::Finish(
                    Err(AntagonistErrorView::InvalidState { resource: self.disk_name, state }),
                ),
            ),
            Action::Start | Action::Stop => (self.at(Stage::Idle), no_such_action()),
        }
    }
}

impl View for DiskActor {
    type V = DiskActorView;

    closed spec fn view(&self) -> DiskActorView {
        DiskActorView { project: self.project@, disk_name: self.disk_name@, stage: self.stage }
    }
}

impl DiskActor {
    /// Creates a new disk antagonist, between cycles.
    pub fn new(params: Params) -> (actor: DiskActor)
        ensures
            actor@ == (DiskActorView {
                project: params.project@,
                disk_name: params.disk_name@,
                stage: Stage::Idle,
            }),
    {
        DiskActor { project: params.project, disk_name: params.disk_name, stage: Stage::Idle }
    }

    /// Where this antagonist stands in its cycle.
    pub fn stage(&self) -> (stage: Stage)
        ensures
            stage == self@.stage,
    {
        self.stage
    }

    /// Reads the answer to the request that fetches the disk: its state where
    /// it exists, `None` where it does not, the failure for any other failure.
    pub fn get_disk_state(reply: Result<DiskState, ApiError>) -> (out: Result<
        Option<DiskState>,
        ApiError,
    >)
        ensures
            out == observed(reply),
    {
        observe(reply)
    }

    /// The request that fetches this antagonist's disk.
    pub fn view_disk(&self) -> (request: Request)
        ensures
            request@ == self@.view_request(),
    {
        Request::DiskView { project: self.project.clone(), disk: self.disk_name.clone() }
    }

    /// The request that creates this antagonist's disk.
    pub fn create_disk(&self) -> (request: Request)
        ensures
            request@ == self@.create_request(),
    {
        Request::DiskCreate {
            project: self.project.clone(),
            body: blank_disk_body(&self.disk_name),
        }
    }

    /// The request that deletes this antagonist's disk.
    pub fn delete_disk(&self) -> (request: Request)
        ensures
            request@ == self@.delete_request(),
    {
        Request::DiskDelete { project: self.project.clone(), disk: self.disk_name.clone() }
    }

    /// Selects an action for this antagonist to take given that its disk was
    /// observed to be in the supplied `state`.
    pub fn get_next_action(&self, state: DiskState) -> (action: Action)
        ensures
            may_select(ResourceState::Disk(state), action),
    {
        select_action(ResourceState::Disk(state))
    }

    /// Carries out the policy's answer: sits the delay out for a wait, issues
    /// the call for a create or a delete, and fails the cycle for a bail.
    pub fn act(&mut self, action: Action) -> (command: Command)
        ensures
            (final(self)@, command@) == old(self)@.act(action),
    {
        match action {
            Action::Wait => {
                self.stage = Stage::Cooling(Ok(()));
                Command::Delay { max_millis: MAX_DELAY_MILLIS }
            },
            Action::Create => {
                self.stage = Stage::Acting;
                Command::Call(self.create_disk())
            },
            Action::Delete => {
                self.stage = Stage::Acting;
                Command::Call(self.delete_disk())
            },
            Action::Bail { reason: BailReason::InvalidState { state } } => {
                self.stage = Stage::Idle;
                Command::Finish(
                    Err(AntagonistError::InvalidState { resource: self.disk_name.clone(), state }),
                )
            },
            Action::Start | Action::Stop => {
                self.stage = Stage::Idle;
                reject_action()
            },
        }
    }

    /// Advances the cycle by one event and says what the driver does next.
    ///
    /// A cycle fetches the disk. Where it does not exist, the cycle asks for it
    /// to be created and ends with the answer. Where the fetch fails otherwise,
    /// the cycle ends with the failure. Where the disk exists, the cycle sits a
    /// delay out, lets the policy choose, carries the choice out, sits a second
    /// delay out and ends with what the call returned. An event that the
    /// antagonist did not wait for ends the cycle with an error.
    pub fn antagonize(&mut self, event: Event) -> (command: Command)
        ensures
            old(self)@.draws(event) ==> exists|action: Action|
                may_select(ResourceState::Disk(old(self)@.stage->Settling_0), action) && (
                final(self)@,
                command@,
            ) == #[trigger] old(self)@.act(action),
            !old(self)@.draws(event) ==> (final(self)@, command@) == old(self)@.step(event),
    {
        match (self.stage, event) {
            (Stage::Idle, Event::Begin) => {
                self.stage = Stage::Viewing;
                Command::Call(self.view_disk())
            },
            (Stage::Viewing, Event::DiskViewed(reply)) => match Self::get_disk_state(reply) {
                Ok(Some(state)) => {
                    self.stage = Stage::Settling(state);
                    Command::Delay { max_millis: MAX_DELAY_MILLIS }
                },
                Ok(None) => {
                    self.stage = Stage::CreatingAbsent;
                    Command::Call(self.create_disk())
                },
                Err(e) => {
                    self.stage = Stage::Idle;
                    Command::Finish(Err(AntagonistError::ApiError(e)))
                },
            },
            (Stage::CreatingAbsent, Event::Called(result)) => {
                self.stage = Stage::Idle;
                finish(result)
            },
            (Stage::Settling(state), Event::Delayed) => {
                let action = self.get_next_action(state);
                let ghost before = self@;
                let command = self.act(action);
                assert((self@, command@) == before.act(action));
                command
            },
            (Stage::Acting, Event::Called(result)) => {
                self.stage = Stage::Cooling(result);
                Command::Delay { max_millis: MAX_DELAY_MILLIS }
            },
            (Stage::Cooling(result), Event::Delayed) => {
                self.stage = Stage::Idle;
                finish(result)
            },
            _ => {
                self.stage = Stage::Idle;
                reject_event()
            },
        }
    }
}

/// A disk that does not exist is created, and nothing is drawn: the answer to
/// a fetch that found no disk is the request that creates the disk with its
/// defaults, it takes no draw, and whatever that request returns ends the
/// cycle as its outcome, again without a draw.
pub proof fn lemma_absent_disk_is_created(
    actor: DiskActorView,
    reply: Result<DiskState, ApiError>,
    result: Result<(), ApiError>,
)
    requires
        actor.stage is Viewing,
        observed(reply) == Ok::<Option<DiskState>, ApiError>(None),
    ensures
        !actor.draws(Event::DiskViewed(reply)),
        actor.step(Event::DiskViewed(reply)) == (
            actor.at(Stage::CreatingAbsent),
            CommandView::Call(actor.create_request()),
        ),
        actor.create_request() == (RequestView::DiskCreate {
            project: actor.project,
            body: blank_disk(actor.disk_name),
        }),
        !actor.at(Stage::CreatingAbsent).draws(Event::Called(result)),
        actor.at(Stage::CreatingAbsent).step(Event::Called(result)) == (
            actor.at(Stage::Idle),
            CommandView::Finish(outcome(result)),
        ),
{
}

/// The policy never asks a disk antagonist for what a disk cannot do: whatever
/// it may select for a disk is a wait, a create, a delete, or the bail that
/// names the state.
pub proof fn lemma_disk_actions(state: DiskState, action: Action)
    requires
        may_select(ResourceState::Disk(state), action),
    ensures
        action == Action::Wait || action == Action::Create || action == Action::Delete || action == (
        Action::Bail { reason: BailReason::InvalidState { state: ResourceState::Disk(state) } }),
{
}

/// How many answers a cycle takes at most, from a stage on, until it is over.
pub open spec fn answers_left(stage: Stage) -> nat {
    match stage {
        Stage::Idle => 5,
        Stage::Viewing => 4,
        Stage::Settling(_) => 3,
        Stage::Acting => 2,
        Stage::Cooling(_) => 1,
        Stage::CreatingAbsent => 1,
    }
}

/// Every cycle ends: an answer either ends the cycle, and then the antagonist
/// is between cycles again, or it brings the end nearer. So a cycle is over
/// after 5 answers at the latest, whatever the driver reports and whatever
/// the policy draws.
pub proof fn lemma_cycle_ends(actor: DiskActorView, event: Event, action: Action)
    ensures
        ({
            let (then, command) = if actor.draws(event) {
                actor.act(action)
            } else {
                actor.step(event)
            };
            &&& command is Finish <==> then.stage is Idle
            &&& !(command is Finish) ==> answers_left(then.stage) < answers_left(actor.stage)
        }),
{
}

} // verus!
