//! Actors: supervised units that each drive one antagonist, cycle after
//! cycle, against the control plane.
//!
//! An antagonist's cycle is a conversation. The antagonist answers every
//! [`Event`] with a [`Command`]: a call to make, a delay to sit out, or the
//! cycle's outcome. The driver carries the command out and reports what came
//! of it as the next event.

pub mod disk;
pub mod instance;
pub mod policy;
pub mod snapshot;
pub mod task;

use crate::actor::disk::{DiskActor, DiskActorView, DiskCreate, DiskCreateView, DiskState};
use crate::actor::instance::{
    hostname_accepted, InstanceActor, InstanceActorView, InstanceCreate, InstanceCreateView,
    InstanceState,
};
use crate::actor::policy::{may_select, Action, ResourceState};
use crate::actor::snapshot::{
    SnapshotActor, SnapshotActorView, SnapshotCreate, SnapshotCreateView, SnapshotState,
};
use crate::util::ApiError;
use vstd::prelude::*;
use vstd::string::*;

verus! {

/// The longest delay, in milliseconds, that an antagonist sits out before it
/// chooses an action and again after it has acted.
pub const MAX_DELAY_MILLIS: u64 = 100;

/// Why a cycle of an antagonist failed.
#[derive(Clone, Debug, PartialEq, Eq)]
pub enum AntagonistError {
    /// A call to the control plane failed.
    ApiError(ApiError),
    /// The resource was observed in a state that the policy has no row for.
    InvalidState { resource: String, state: ResourceState },
    /// Any other failure.
    OtherError(String),
}

/// What an [`AntagonistError`] says.
pub enum AntagonistErrorView {
    ApiError(ApiError),
    InvalidState { resource: Seq<char>, state: ResourceState },
    OtherError(Seq<char>),
}

impl View for AntagonistError {
    type V = AntagonistErrorView;

    open spec fn view(&self) -> AntagonistErrorView {
        match self {
            AntagonistError::ApiError(e) => AntagonistErrorView::ApiError(*e),
            AntagonistError::InvalidState { resource, state } => AntagonistErrorView::InvalidState {
                resource: resource@,
                state: *state,
            },
            AntagonistError::OtherError(message) => AntagonistErrorView::OtherError(message@),
        }
    }
}

impl From<ApiError> for AntagonistError {
    /// A failed call as the failure of the cycle that made it.
    fn from(e: ApiError) -> (error: AntagonistError) {
        AntagonistError::ApiError(e)
    }
}

impl vstd::std_specs::convert::FromSpecImpl<ApiError> for AntagonistError {
    open spec fn obeys_from_spec() -> bool {
        true
    }

    open spec fn from_spec(e: ApiError) -> AntagonistError {
        AntagonistError::ApiError(e)
    }
}

impl AntagonistErrorView {
    /// The error in words, for a report.
    pub open spec fn message(self) -> Seq<char> {
        match self {
            AntagonistErrorView::ApiError(_) => "oxide api error"@,
            AntagonistErrorView::InvalidState { resource, state } => state.spec_kind().spec_name()
                + " "@ + resource + " unexpectedly in state "@ + state.spec_name(),
            AntagonistErrorView::OtherError(message) => message,
        }
    }
}

impl AntagonistError {
    /// The error in words, for a report: an invalid state is told with the
    /// kind and the name of the resource and the name of the state.
    pub fn message(&self) -> (text: String)
        ensures
            text@ == self@.message(),
    {
        match self {
            AntagonistError::ApiError(_) => String::from_str("oxide api error"),
            AntagonistError::InvalidState { resource, state } => String::from_str(
                state.kind().name(),
            ).concat(" ").concat(resource.as_str()).concat(" unexpectedly in state ").concat(
                state.name(),
            ),
            AntagonistError::OtherError(message) => message.clone(),
        }
    }
}

/// A call to the control plane.
#[derive(Clone, Debug, PartialEq, Eq)]
#[allow(inconsistent_fields)]
pub enum Request {
    /// Fetch an instance.
    InstanceView { project: String, instance: String },
    /// Create an instance.
    InstanceCreate { project: String, body: InstanceCreate },
    /// Start an instance.
    InstanceStart { project: String, instance: String },
    /// Stop an instance.
    InstanceStop { project: String, instance: String },
    /// Delete an instance.
    InstanceDelete { project: String, instance: String },
    /// Fetch a disk.
    DiskView { project: String, disk: String },
    /// Create a disk.
    DiskCreate { project: String, body: DiskCreate },
    /// Delete a disk.
    DiskDelete { project: String, disk: String },
    /// Fetch a snapshot.
    SnapshotView { project: String, snapshot: String },
    /// Create a snapshot.
    SnapshotCreate { project: String, body: SnapshotCreate },
    /// Delete a snapshot.
    SnapshotDelete { project: String, snapshot: String },
}

/// What a [`Request`] asks for.
#[allow(inconsistent_fields)]
pub enum RequestView {
    InstanceView { project: Seq<char>, instance: Seq<char> },
    InstanceCreate { project: Seq<char>, body: InstanceCreateView },
    InstanceStart { project: Seq<char>, instance: Seq<char> },
    InstanceStop { project: Seq<char>, instance: Seq<char> },
    InstanceDelete { project: Seq<char>, instance: Seq<char> },
    DiskView { project: Seq<char>, disk: Seq<char> },
    DiskCreate { project: Seq<char>, body: DiskCreateView },
    DiskDelete { project: Seq<char>, disk: Seq<char> },
    SnapshotView { project: Seq<char>, snapshot: Seq<char> },
    SnapshotCreate { project: Seq<char>, body: SnapshotCreateView },
    SnapshotDelete { project: Seq<char>, snapshot: Seq<char> },
}

impl View for Request {
    type V = RequestView;

    open spec fn view(&self) -> RequestView {
        match self {
            Request::InstanceView { project, instance } => RequestView::InstanceView {
                project: project@,
                instance: instance@,
            },
            Request::InstanceCreate { project, body } => RequestView::InstanceCreate {
                project: project@,
                body: body@,
            },
            Request::InstanceStart { project, instance } => RequestView::InstanceStart {
                project: project@,
                instance: instance@,
            },
            Request::InstanceStop { project, instance } => RequestView::InstanceStop {
                project: project@,
                instance: instance@,
            },
            Request::InstanceDelete { project, instance } => RequestView::InstanceDelete {
                project: project@,
                instance: instance@,
            },
            Request::SnapshotView { project, snapshot } => RequestView::SnapshotView {
                project: project@,
                snapshot: snapshot@,
            },
            Request::SnapshotCreate { project, body } => RequestView::SnapshotCreate {
                project: project@,
                body: body@,
            },
            Request::SnapshotDelete { project, snapshot } => RequestView::SnapshotDelete {
                project: project@,
                snapshot: snapshot@,
            },
            Request::DiskView { project, disk } => RequestView::DiskView {
                project: project@,
                disk: disk@,
            },
            Request::DiskCreate { project, body } => RequestView::DiskCreate {
                project: project@,
                body: body@,
            },
            Request::DiskDelete { project, disk } => RequestView::DiskDelete {
                project: project@,
                disk: disk@,
            },
        }
    }
}

/// What the driver of a cycle does next.
#[derive(Debug, PartialEq, Eq)]
pub enum Command {
    /// Make this call and report how it went.
    Call(Request),
    /// Sleep for a random time of at most this many milliseconds, then report
    /// that the delay is over.
    Delay { max_millis: u64 },
    /// The cycle is over, with this outcome.
    Finish(Result<(), AntagonistError>),
}

/// What a [`Command`] says.
pub enum CommandView {
    Call(RequestView),
    Delay { max_millis: u64 },
    Finish(Result<(), AntagonistErrorView>),
}

impl View for Command {
    type V = CommandView;

    open spec fn view(&self) -> CommandView {
        match self {
            Command::Call(request) => CommandView::Call(request@),
            Command::Delay { max_millis } => CommandView::Delay { max_millis: *max_millis },
            Command::Finish(Ok(())) => CommandView::Finish(Ok(())),
            Command::Finish(Err(e)) => CommandView::Finish(Err(e@)),
        }
    }
}

/// What the driver of a cycle reports.
#[derive(Clone, Copy, Debug, PartialEq, Eq)]
pub enum Event {
    /// A new cycle is to begin.
    Begin,
    /// A request to fetch an instance was answered.
    InstanceViewed(Result<InstanceState, ApiError>),
    /// A request to fetch a disk was answered.
    DiskViewed(Result<DiskState, ApiError>),
    /// A request to fetch a snapshot was answered.
    SnapshotViewed(Result<SnapshotState, ApiError>),
    /// A request to create, start, stop or delete was answered.
    Called(Result<(), ApiError>),
    /// A delay is over.
    Delayed,
}

/// What the answer to a fetch says of the resource: its state where it was
/// found, `None` where the control plane says that it does not exist, and the
/// failure itself for any other failure.
pub open spec fn observed<S>(reply: Result<S, ApiError>) -> Result<Option<S>, ApiError> {
    match reply {
        Ok(state) => Ok(Some(state)),
        Err(e) => if e.is_not_found() {
            Ok(None)
        } else {
            Err(e)
        },
    }
}

/// Reads the answer to a fetch.
pub fn observe<S>(reply: Result<S, ApiError>) -> (out: Result<Option<S>, ApiError>)
    ensures
        out == observed(reply),
{
    match reply {
        Ok(state) => Ok(Some(state)),
        Err(e) => if e.not_found() {
            Ok(None)
        } else {
            Err(e)
        },
    }
}

/// The outcome of a cycle that ends with the result of a call.
pub open spec fn outcome(result: Result<(), ApiError>) -> Result<(), AntagonistErrorView> {
    match result {
        Ok(()) => Ok(()),
        Err(e) => Err(AntagonistErrorView::ApiError(e)),
    }
}

/// Ends a cycle with the result of a call.
pub fn finish(result: Result<(), ApiError>) -> (command: Command)
    ensures
        command@ == CommandView::Finish(outcome(result)),
{
    match result {
        Ok(()) => Command::Finish(Ok(())),
        Err(e) => Command::Finish(Err(AntagonistError::ApiError(e))),
    }
}

/// What an antagonist answers to an event that it did not wait for.
pub open spec fn out_of_turn() -> CommandView {
    CommandView::Finish(Err(AntagonistErrorView::OtherError("event out of turn"@)))
}

/// Ends a cycle because an event came that the antagonist did not wait for.
pub fn reject_event() -> (command: Command)
    ensures
        command@ == out_of_turn(),
{
    Command::Finish(Err(AntagonistError::OtherError(String::from_str("event out of turn"))))
}

/// What an antagonist answers to an action that its kind of resource does not
/// have.
pub open spec fn no_such_action() -> CommandView {
    CommandView::Finish(Err(AntagonistErrorView::OtherError("action does not apply"@)))
}

/// Ends a cycle because the action does not apply to the resource.
pub fn reject_action() -> (command: Command)
    ensures
        command@ == no_such_action(),
{
    Command::Finish(Err(AntagonistError::OtherError(String::from_str("action does not apply"))))
}

/// The kinds of actors this module can instantiate.
#[derive(Clone, Debug, PartialEq, Eq)]
pub enum ActorKind {
    /// Creates, starts, stops, and destroys instances.
    Instance(instance::Params),
    /// Creates and deletes disks.
    Disk(disk::Params),
    /// Creates and deletes snapshots.
    Snapshot(snapshot::Params),
}

/// What an [`ActorKind`] configures.
pub enum ActorKindView {
    Instance { project: Seq<char>, instance_name: Seq<char> },
    Disk { project: Seq<char>, disk_name: Seq<char> },
    Snapshot { project: Seq<char>, disk_name: Seq<char>, snapshot_name: Seq<char> },
}

impl View for ActorKind {
    type V = ActorKindView;

    open spec fn view(&self) -> ActorKindView {
        match self {
            ActorKind::Instance(params) => ActorKindView::Instance {
                project: params.project@,
                instance_name: params.instance_name@,
            },
            ActorKind::Disk(params) => ActorKindView::Disk {
                project: params.project@,
                disk_name: params.disk_name@,
            },
            ActorKind::Snapshot(params) => ActorKindView::Snapshot {
                project: params.project@,
                disk_name: params.disk_name@,
                snapshot_name: params.snapshot_name@,
            },
        }
    }
}

/// An antagonist of one of the three kinds.
#[derive(Clone, Debug, PartialEq, Eq)]
pub enum Antagonist {
    Instance(InstanceActor),
    Disk(DiskActor),
    Snapshot(SnapshotActor),
}

/// What an [`Antagonist`] holds.
pub enum AntagonistView {
    Instance(InstanceActorView),
    Disk(DiskActorView),
    Snapshot(SnapshotActorView),
}

impl View for Antagonist {
    type V = AntagonistView;

    open spec fn view(&self) -> AntagonistView {
        match self {
            Antagonist::Instance(actor) => AntagonistView::Instance(actor@),
            Antagonist::Disk(actor) => AntagonistView::Disk(actor@),
            Antagonist::Snapshot(actor) => AntagonistView::Snapshot(actor@),
        }
    }
}

impl AntagonistView {
    /// The antagonist that a configuration starts out as: between cycles, a
    /// snapshot antagonist with its counter at zero.
    pub open spec fn fresh(kind: ActorKindView) -> AntagonistView {
        match kind {
            ActorKindView::Instance { project, instance_name } => AntagonistView::Instance(
                InstanceActorView {
                    project,
                    instance_name,
                    hostname_ok: hostname_accepted(instance_name),
                    stage: instance::Stage::Idle,
                },
            ),
            ActorKindView::Disk { project, disk_name } => AntagonistView::Disk(
                DiskActorView { project, disk_name, stage: disk::Stage::Idle },
            ),
            ActorKindView::Snapshot { project, disk_name, snapshot_name } => AntagonistView::Snapshot(
                SnapshotActorView {
                    project,
                    disk_name,
                    snapshot_name,
                    counter: 0,
                    stage: snapshot::Stage::Idle,
                },
            ),
        }
    }

    /// Whether no cycle is under way.
    pub open spec fn is_idle(self) -> bool {
        match self {
            AntagonistView::Instance(actor) => actor.stage is Idle,
            AntagonistView::Disk(actor) => actor.stage is Idle,
            AntagonistView::Snapshot(actor) => actor.stage is Idle,
        }
    }

    /// Whether the answer to `event` takes a draw.
    pub open spec fn draws(self, event: Event) -> bool {
        match self {
            AntagonistView::Instance(actor) => actor.draws(event),
            AntagonistView::Disk(actor) => actor.draws(event),
            AntagonistView::Snapshot(actor) => actor.draws(event),
        }
    }

    /// Whether the antagonist can answer `event`.
    pub open spec fn can_answer(self, event: Event) -> bool {
        match self {
            AntagonistView::Snapshot(actor) => actor.can_answer(event),
            _ => true,
        }
    }

    /// The state that the policy draws for, while the delay before the choice
    /// runs.
    pub open spec fn settled_state(self) -> ResourceState {
        match self {
            AntagonistView::Instance(actor) => ResourceState::Instance(actor.stage->Settling_0),
            AntagonistView::Disk(actor) => ResourceState::Disk(actor.stage->Settling_0),
            AntagonistView::Snapshot(actor) => ResourceState::Snapshot(actor.stage->Settling_0),
        }
    }

    /// The answer to an event that takes no draw.
    pub open spec fn step(self, event: Event) -> (AntagonistView, CommandView) {
        match self {
            AntagonistView::Instance(actor) => (
                AntagonistView::Instance(actor.step(event).0),
                actor.step(event).1,
            ),
            AntagonistView::Disk(actor) => (
                AntagonistView::Disk(actor.step(event).0),
                actor.step(event).1,
            ),
            AntagonistView::Snapshot(actor) => (
                AntagonistView::Snapshot(actor.step(event).0),
                actor.step(event).1,
            ),
        }
    }

    /// The answer to the event that takes a draw, once the policy has answered
    /// `action`.
    pub open spec fn after_draw(self, action: Action) -> (AntagonistView, CommandView) {
        match self {
            AntagonistView::Instance(actor) => (
                AntagonistView::Instance(actor.act(action).0),
                actor.act(action).1,
            ),
            AntagonistView::Disk(actor) => (
                AntagonistView::Disk(actor.act(action).0),
                actor.act(action).1,
            ),
            AntagonistView::Snapshot(actor) => (
                AntagonistView::Snapshot(actor.noting(actor.stage->Settling_0).act(action).0),
                actor.noting(actor.stage->Settling_0).act(action).1,
            ),
        }
    }
}

/// Creates an antagonist of the specified kind.
pub fn make_antagonist(kind: ActorKind) -> (antagonist: Antagonist)
    ensures
        antagonist@ == AntagonistView::fresh(kind@),
{
    match kind {
        ActorKind::Instance(params) => Antagonist::Instance(InstanceActor::new(params)),
        ActorKind::Disk(params) => Antagonist::Disk(DiskActor::new(params)),
        ActorKind::Snapshot(params) => Antagonist::Snapshot(SnapshotActor::new(params)),
    }
}

impl Antagonist {
    /// Tells whether this antagonist can answer `event`.
    pub fn accepts(&self, event: &Event) -> (ok: bool)
        ensures
            ok == self@.can_answer(*event),
    {
        match self {
            Antagonist::Snapshot(actor) => actor.accepts(event),
            _ => true,
        }
    }

    /// Advances the antagonist's cycle by one event and says what the driver
    /// does next, whatever the antagonist's kind.
    pub fn antagonize(&mut self, event: Event) -> (command: Command)
        requires
            old(self)@.can_answer(event),
        ensures
            old(self)@.draws(event) ==> exists|action: Action|
                may_select(old(self)@.settled_state(), action) && (final(self)@, command@)
                    == #[trigger] old(self)@.after_draw(action),
            !old(self)@.draws(event) ==> (final(self)@, command@) == old(self)@.step(event),
    {
        match self {
            Antagonist::Instance(actor) => {
                let ghost before = actor@;
                let command = actor.antagonize(event);
                proof {
                    if before.draws(event) {
                        let action = choose|action: Action|
                            may_select(ResourceState::Instance(before.stage->Settling_0), action)
                                && (actor@, command@) == #[trigger] before.act(action);
                        assert((AntagonistView::Instance(actor@), command@)
                            == AntagonistView::Instance(before).after_draw(action));
                    }
                }
                command
            },
            Antagonist::Disk(actor) => {
                let ghost before = actor@;
                let command = actor.antagonize(event);
                proof {
                    if before.draws(event) {
                        let action = choose|action: Action|
                            may_select(ResourceState::Disk(before.stage->Settling_0), action) && (
                            actor@,
                            command@,
                        ) == #[trigger] before.act(action);
                        assert((AntagonistView::Disk(actor@), command@) == AntagonistView::Disk(
                            before,
                        ).after_draw(action));
                    }
                }
                command
            },
            Antagonist::Snapshot(actor) => {
                let ghost before = actor@;
                let command = actor.antagonize(event);
                proof {
                    if before.draws(event) {
                        let action = choose|action: Action|
                            may_select(ResourceState::Snapshot(before.stage->Settling_0), action)
                                && (actor@, command@) == #[trigger] before.noting(
                                before.stage->Settling_0,
                            ).act(action);
                        assert((AntagonistView::Snapshot(actor@), command@)
                            == AntagonistView::Snapshot(before).after_draw(action));
                    }
                }
                command
            },
        }
    }
}

} // verus!
