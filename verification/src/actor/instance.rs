//! An antagonist that exercises the lifecycle of an instance: create, start,
//! stop, delete.

use crate::actor::policy::{may_select, select_action, Action, BailReason, ResourceState};
use crate::actor::{
    finish, observe, observed, out_of_turn, outcome, reject_event, AntagonistError,
    AntagonistErrorView, Command, CommandView, Event, Request, RequestView, MAX_DELAY_MILLIS,
};
use crate::util::ApiError;
use vstd::prelude::*;

verus! {

/// The run state that the control plane reports of an instance.
#[derive(Clone, Copy, Debug, PartialEq, Eq, Structural)]
pub enum InstanceState {
    /// The instance is being created.
    Creating,
    /// The instance is starting up.
    Starting,
    /// The instance is running.
    Running,
    /// The instance was asked to stop and will be stopped shortly.
    Stopping,
    /// The instance is stopped.
    Stopped,
    /// The instance is rebooting.
    Rebooting,
    /// The instance is moving to another host.
    Migrating,
    /// The instance is recovering from a failure.
    Repairing,
    /// The instance has failed.
    Failed,
    /// The instance has been deleted.
    Destroyed,
}

impl InstanceState {
    /// The state's name, as it appears in reports.
    pub open spec fn spec_name(self) -> Seq<char> {
        match self {
            InstanceState::Creating => "Creating"@,
            InstanceState::Starting => "Starting"@,
            InstanceState::Running => "Running"@,
            InstanceState::Stopping => "Stopping"@,
            InstanceState::Stopped => "Stopped"@,
            InstanceState::Rebooting => "Rebooting"@,
            InstanceState::Migrating => "Migrating"@,
            InstanceState::Repairing => "Repairing"@,
            InstanceState::Failed => "Failed"@,
            InstanceState::Destroyed => "Destroyed"@,
        }
    }

    /// The state's name, as it appears in reports.
    pub fn name(&self) -> (name: &'static str)
        ensures
            name@ == self.spec_name(),
    {
        match self {
            InstanceState::Creating => "Creating",
            InstanceState::Starting => "Starting",
            InstanceState::Running => "Running",
            InstanceState::Stopping => "Stopping",
            InstanceState::Stopped => "Stopped",
            InstanceState::Rebooting => "Rebooting",
            InstanceState::Migrating => "Migrating",
            InstanceState::Repairing => "Repairing",
            InstanceState::Failed => "Failed",
            InstanceState::Destroyed => "Destroyed",
        }
    }
}

/// The memory of an instance that an antagonist creates: one gibibyte.
pub const MEMORY: u64 = 1_073_741_824;

/// The number of processors of an instance that an antagonist creates.
pub const NCPUS: u16 = 1;

/// The network interfaces that a new instance gets.
#[derive(Clone, Copy, Debug, PartialEq, Eq, Structural)]
pub enum NetworkInterfaces {
    /// The interface that the control plane gives where nothing is asked.
    Primary,
    /// No interface.
    Unattached,
}

/// The parameters of a request to create an instance. The request attaches no
/// disk and asks for no external address.
#[derive(Clone, Debug, PartialEq, Eq)]
pub struct InstanceCreate {
    /// Free-form text about the instance.
    pub description: String,
    /// The instance's host name.
    pub hostname: String,
    /// The instance's name.
    pub name: String,
    /// The instance's memory, in bytes.
    pub memory: u64,
    /// The number of the instance's processors.
    pub ncpus: u16,
    /// The instance's network interfaces.
    pub network_interfaces: NetworkInterfaces,
    /// Whether the instance is started once it is created.
    pub start: bool,
    /// Data handed to the instance at its first start.
    pub user_data: String,
}

/// What an [`InstanceCreate`] asks for.
pub struct InstanceCreateView {
    pub description: Seq<char>,
    pub hostname: Seq<char>,
    pub name: Seq<char>,
    pub memory: u64,
    pub ncpus: u16,
    pub network_interfaces: NetworkInterfaces,
    pub start: bool,
    pub user_data: Seq<char>,
}

impl View for InstanceCreate {
    type V = InstanceCreateView;

    open spec fn view(&self) -> InstanceCreateView {
        InstanceCreateView {
            description: self.description@,
            hostname: self.hostname@,
            name: self.name@,
            memory: self.memory,
            ncpus: self.ncpus,
            network_interfaces: self.network_interfaces,
            start: self.start,
            user_data: self.user_data@,
        }
    }
}

/// The instance that an antagonist creates under a name: one processor, one
/// gibibyte of memory, no network interface, no user data, started at once,
/// with the name as its host name and its description.
pub open spec fn minimal_instance(name: Seq<char>) -> InstanceCreateView {
    InstanceCreateView {
        description: name,
        hostname: name,
        name,
        memory: MEMORY,
        ncpus: NCPUS,
        network_interfaces: NetworkInterfaces::Unattached,
        start: true,
        user_data: Seq::empty(),
    }
}

/// Builds the request for the instance that an antagonist creates under a
/// name.
pub fn minimal_instance_body(name: &String) -> (body: InstanceCreate)
    ensures
        body@ == minimal_instance(name@),
{
    InstanceCreate {
        description: name.clone(),
        hostname: name.clone(),
        name: name.clone(),
        memory: MEMORY,
        ncpus: NCPUS,
        network_interfaces: NetworkInterfaces::Unattached,
        start: true,
        user_data: String::new(),
    }
}

/// Whether the control plane's client takes a text as a host name.
pub uninterp spec fn hostname_accepted(name: Seq<char>) -> bool;

/// Asks the control plane's client whether it takes `name` as a host name.
///
/// Trusted: parses `name` as `oxide::types::Hostname` and reports whether that
/// succeeded. The parse looks at the text alone, so the contract gives its
/// verdict a name and claims nothing more of it.
#[verifier::external_body]
fn hostname_is_valid(name: &str) -> (accepted: bool)
    ensures
        accepted == hostname_accepted(name@),
{
    name.parse::<oxide::types::Hostname>().is_ok()
}

/// The parameters used to configure an instance antagonist.
#[derive(Clone, Debug, PartialEq, Eq)]
pub struct Params {
    /// The name of the project to create this antagonist's instance in.
    pub project: String,
    /// The name of the instance this antagonist should act on.
    pub instance_name: String,
}

/// Where an instance antagonist stands in its cycle.
#[derive(Clone, Copy, Debug, PartialEq, Eq)]
pub enum Stage {
    /// No cycle is under way.
    Idle,
    /// The instance is being fetched.
    Viewing,
    /// The instance did not exist and is being created; the answer ends the
    /// cycle.
    CreatingAbsent,
    /// The instance was observed in this state; the delay before the choice
    /// runs.
    Settling(InstanceState),
    /// The chosen call is under way.
    Acting,
    /// The chosen call returned this; the delay after it runs.
    Cooling(Result<(), ApiError>),
}

/// The internal state for an instance antagonist.
#[derive(Clone, Debug, PartialEq, Eq)]
pub struct InstanceActor {
    project: String,
    instance_name: String,
    hostname_ok: bool,
    stage: Stage,
}

/// What an [`InstanceActor`] holds.
pub struct InstanceActorView {
    pub project: Seq<char>,
    pub instance_name: Seq<char>,
    /// Whether the instance's name serves as its host name.
    pub hostname_ok: bool,
    pub stage: Stage,
}

impl InstanceActorView {
    /// This antagonist at another stage of its cycle.
    pub open spec fn at(self, stage: Stage) -> InstanceActorView {
        InstanceActorView { stage, ..self }
    }

    /// The request that fetches the instance.
    pub open spec fn view_request(self) -> RequestView {
        RequestView::InstanceView { project: self.project, instance: self.instance_name }
    }

    /// The request that creates the instance, or the failure with which the
    /// request is refused before it is sent: the instance takes its name as its
    /// host name, and not every name serves as one.
    pub open spec fn create_request(self) -> Result<RequestView, ApiError> {
        if self.hostname_ok {
            Ok(
                RequestView::InstanceCreate {
                    project: self.project,
                    body: minimal_instance(self.instance_name),
                },
            )
        } else {
            Err(ApiError::InvalidRequest)
        }
    }

    /// The request that starts the instance.
    pub open spec fn start_request(self) -> RequestView {
        RequestView::InstanceStart { project: self.project, instance: self.instance_name }
    }

    /// The request that stops the instance.
    pub open spec fn stop_request(self) -> RequestView {
        RequestView::InstanceStop { project: self.project, instance: self.instance_name }
    }

    /// The request that deletes the instance.
    pub open spec fn delete_request(self) -> RequestView {
        RequestView::InstanceDelete { project: self.project, instance: self.instance_name }
    }

    /// Whether the answer to `event` takes a draw: it does when the delay
    /// before the choice is over.
    pub open spec fn draws(self, event: Event) -> bool {
        self.stage is Settling && event is Delayed
    }

    /// The answer to an event that takes no draw: the antagonist afterwards,
    /// and what it tells the driver.
    pub open spec fn step(self, event: Event) -> (InstanceActorView, CommandView) {
        match (self.stage, event) {
            (Stage::Idle, Event::Begin) => (
                self.at(Stage::Viewing),
                CommandView::Call(self.view_request()),
            ),
            (Stage::Viewing, Event::InstanceViewed(reply)) => match observed(reply) {
                Ok(Some(state)) => (
                    self.at(Stage::Settling(state)),
                    CommandView::Delay { max_millis: MAX_DELAY_MILLIS },
                ),
                Ok(None) => match self.create_request() {
                    Ok(request) => (self.at(Stage::CreatingAbsent), CommandView::Call(request)),
                    Err(e) => (
                        self.at(Stage::Idle),
                        CommandView::Finish(Err(AntagonistErrorView::ApiError(e))),
                    ),
                },
                Err(e) => (
                    self.at(Stage::Idle),
                    CommandView::Finish(Err(AntagonistErrorView::ApiError(e))),
                ),
            },
            (Stage::CreatingAbsent, Event::Called(result)) => (
                self.at(Stage::Idle),
                CommandView::Finish(outcome(result)),
            ),
            (Stage::Acting, Event::Called(result)) => (
                self.at(Stage::Cooling(result)),
                CommandView::Delay { max_millis: MAX_DELAY_MILLIS },
            ),
            (Stage::Cooling(result), Event::Delayed) => (
                self.at(Stage::Idle),
                CommandView::Finish(outcome(result)),
            ),
            _ => (self.at(Stage::Idle), out_of_turn()),
        }
    }

    /// What follows from the policy's answer: the antagonist afterwards, and
    /// what it tells the driver.
    pub open spec fn act(self, action: Action) -> (InstanceActorView, CommandView) {
        match action {
            Action::Wait => (
                self.at(Stage::Cooling(Ok(()))),
                CommandView::Delay { max_millis: MAX_DELAY_MILLIS },
            ),
            Action::Create => match self.create_request() {
                Ok(request) => (self.at(Stage::Acting), CommandView::Call(request)),
                Err(e) => (
                    self.at(Stage::Cooling(Err(e))),
                    CommandView::Delay { max_millis: MAX_DELAY_MILLIS },
                ),
            },
            Action::Start => (self.at(Stage::Acting), CommandView::Call(self.start_request())),
            Action::Stop => (self.at(Stage::Acting), CommandView::Call(self.stop_request())),
            Action::Delete => (self.at(Stage::Acting), CommandView::Call(self.delete_request())),
            Action::Bail { reason: BailReason::InvalidState { state } } => (
                self.at(Stage::Idle),
                CommandView::Finish(
                    Err(AntagonistErrorView::InvalidState { resource: self.instance_name, state }),
                ),
            ),
        }
    }
}

impl View for InstanceActor {
    type V = InstanceActorView;

    closed spec fn view(&self) -> InstanceActorView {
        InstanceActorView {
            project: self.project@,
            instance_name: self.instance_name@,
            hostname_ok: self.hostname_ok,
            stage: self.stage,
        }
    }
}

impl InstanceActor {
    /// Creates a new instance antagonist, between cycles. Whether the
    /// instance's name serves as its host name is settled here, once.
    pub fn new(params: Params) -> (actor: InstanceActor)
        ensures
            actor@ == (InstanceActorView {
                project: params.project@,
                instance_name: params.instance_name@,
                hostname_ok: hostname_accepted(params.instance_name@),
                stage: Stage::Idle,
            }),
    {
        let hostname_ok = hostname_is_valid(params.instance_name.as_str());
        Self::with_hostname_verdict(params, hostname_ok)
    }

    /// Creates a new instance antagonist, between cycles, for a name of which
    /// it is known whether it serves as a host name.
    pub fn with_hostname_verdict(params: Params, hostname_ok: bool) -> (actor: InstanceActor)
        ensures
            actor@ == (InstanceActorView {
                project: params.project@,
                instance_name: params.instance_name@,
                hostname_ok,
                stage: Stage::Idle,
            }),
    {
        InstanceActor {
            project: params.project,
            instance_name: params.instance_name,
            hostname_ok,
            stage: Stage::Idle,
        }
    }

    /// Where this antagonist stands in its cycle.
    pub fn stage(&self) -> (stage: Stage)
        ensures
            stage == self@.stage,
    {
        self.stage
    }

    /// Reads the answer to the request that fetches the instance: its state
    /// where it exists, `None` where it does not, the failure for any other
    /// failure.
    pub fn get_instance_state(reply: Result<InstanceState, ApiError>) -> (out: Result<
        Option<InstanceState>,
        ApiError,
    >)
        ensures
            out == observed(reply),
    {
        observe(reply)
    }

    /// The request that fetches this antagonist's instance.
    pub fn view_instance(&self) -> (request: Request)
        ensures
            request@ == self@.view_request(),
    {
        Request::InstanceView {
            project: self.project.clone(),
            instance: self.instance_name.clone(),
        }
    }

    /// The request that creates this antagonist's instance, or the failure
    /// with which it is refused before it is sent.
    pub fn create_instance(&self) -> (request: Result<Request, ApiError>)
        ensures
            (match self@.create_request() {
                Ok(expected) => request matches Ok(built) && built@ == expected,
                Err(e) => request == Err::<Request, ApiError>(e),
            }),
    {
        if self.hostname_ok {
            Ok(
                Request::InstanceCreate {
                    project: self.project.clone(),
                    body: minimal_instance_body(&self.instance_name),
                },
            )
        } else {
            Err(ApiError::InvalidRequest)
        }
    }

    /// The request that starts this antagonist's instance.
    pub fn start_instance(&self) -> (request: Request)
        ensures
            request@ == self@.start_request(),
    {
        Request::InstanceStart {
            project: self.project.clone(),
            instance: self.instance_name.clone(),
        }
    }

    /// The request that stops this antagonist's instance.
    pub fn stop_instance(&self) -> (request: Request)
        ensures
            request@ == self@.stop_request(),
    {
        Request::InstanceStop {
            project: self.project.clone(),
            instance: self.instance_name.clone(),
        }
    }

    /// The request that deletes this antagonist's instance.
    pub fn delete_instance(&self) -> (request: Request)
        ensures
            request@ == self@.delete_request(),
    {
        Request::InstanceDelete {
            project: self.project.clone(),
            instance: self.instance_name.clone(),
        }
    }

    /// Selects an action for this antagonist to take given that its instance
    /// was observed to be in the supplied `state`.
    pub fn get_next_action(&self, state: InstanceState) -> (action: Action)
        ensures
            may_select(ResourceState::Instance(state), action),
    {
        select_action(ResourceState::Instance(state))
    }

    /// Carries out the policy's answer: sits the delay out for a wait, issues
    /// the call for a create, start, stop or delete, and fails the cycle for a
    /// bail. A create that is refused before it is sent counts as a call that
    /// failed.
    pub fn act(&mut self, action: Action) -> (command: Command)
        ensures
            (final(self)@, command@) == old(self)@.act(action),
    {
        match action {
            Action::Wait => {
                self.stage = Stage::Cooling(Ok(()));
                Command::Delay { max_millis: MAX_DELAY_MILLIS }
            },
            Action::Create => match self.create_instance() {
                Ok(request) => {
                    self.stage = Stage::Acting;
                    Command::Call(request)
                },
                Err(e) => {
                    self.stage = Stage::Cooling(Err(e));
                    Command::Delay { max_millis: MAX_DELAY_MILLIS }
                },
            },
            Action::Start => {
                self.stage = Stage::Acting;
                Command::Call(self.start_instance())
            },
            Action::Stop => {
                self.stage = Stage::Acting;
                Command::Call(self.stop_instance())
            },
            Action::Delete => {
                self.stage = Stage::Acting;
                Command::Call(self.delete_instance())
            },
            Action::Bail { reason: BailReason::InvalidState { state } } => {
                self.stage = Stage::Idle;
                Command::Finish(
                    Err(
                        AntagonistError::InvalidState {
                            resource: self.instance_name.clone(),
                            state,
                        },
                    ),
                )
            },
        }
    }

    /// Advances the cycle by one event and says what the driver does next.
    ///
    /// A cycle fetches the instance. Where it does not exist, the cycle asks
    /// for it to be created and ends with the answer. Where the fetch fails
    /// otherwise, the cycle ends with the failure. Where the instance exists,
    /// the cycle sits a delay out, lets the policy choose, carries the choice
    /// out, sits a second delay out and ends with what the call returned. An
    /// event that the antagonist did not wait for ends the cycle with an error.
    pub fn antagonize(&mut self, event: Event) -> (command: Command)
        ensures
            old(self)@.draws(event) ==> exists|action: Action|
                may_select(ResourceState::Instance(old(self)@.stage->Settling_0), action) && (
                final(self)@,
                command@,
            ) == #[trigger] old(self)@.act(action),
            !old(self)@.draws(event) ==> (final(self)@, command@) == old(self)@.step(event),
    {
        match (self.stage, event) {
            (Stage::Idle, Event::Begin) => {
                self.stage = Stage::Viewing;
                Command::Call(self.view_instance())
            },
            (Stage::Viewing, Event::InstanceViewed(reply)) => match Self::get_instance_state(
                reply,
            ) {
                Ok(Some(state)) => {
                    self.stage = Stage::Settling(state);
                    Command::Delay { max_millis: MAX_DELAY_MILLIS }
                },
                Ok(None) => match self.create_instance() {
                    Ok(request) => {
                        self.stage = Stage::CreatingAbsent;
                        Command::Call(request)
                    },
                    Err(e) => {
                        self.stage = Stage::Idle;
                        Command::Finish(Err(AntagonistError::ApiError(e)))
                    },
                },
                Err(e) => {
                    self.stage = Stage::Idle;
                    Command::Finish(Err(AntagonistError::ApiError(e)))
                },
            },
            (Stage::CreatingAbsent, Event::Called(result)) => {
                self.stage = Stage::Idle;
                finish(result)
            },
            (Stage::Settling(state), Event::Delayed) => {
                let action = self.get_next_action(state);
                let ghost before = self@;
                let command = self.act(action);
                assert((self@, command@) == before.act(action));
                command
            },
            (Stage::Acting, Event::Called(result)) => {
                self.stage = Stage::Cooling(result);
                Command::Delay { max_millis: MAX_DELAY_MILLIS }
            },
            (Stage::Cooling(result), Event::Delayed) => {
                self.stage = Stage::Idle;
                finish(result)
            },
            _ => {
                self.stage = Stage::Idle;
                reject_event()
            },
        }
    }
}

/// An instance that does not exist is created, and nothing is drawn: the
/// answer to a fetch that found no instance is the request that creates the
/// instance with its defaults, it takes no draw, and whatever that request
/// returns ends the cycle as its outcome, again without a draw. Where the
/// request is refused before it is sent, the refusal ends the cycle at once.
pub proof fn lemma_absent_instance_is_created(
    actor: InstanceActorView,
    reply: Result<InstanceState, ApiError>,
    result: Result<(), ApiError>,
)
    requires
        actor.stage is Viewing,
        observed(reply) == Ok::<Option<InstanceState>, ApiError>(None),
    ensures
        !actor.draws(Event::InstanceViewed(reply)),
        actor.hostname_ok ==> actor.step(Event::InstanceViewed(reply)) == (
            actor.at(Stage::CreatingAbsent),
            CommandView::Call(
                RequestView::InstanceCreate {
                    project: actor.project,
                    body: minimal_instance(actor.instance_name),
                },
            ),
        ),
        !actor.hostname_ok ==> actor.step(Event::InstanceViewed(reply)) == (
            actor.at(Stage::Idle),
            CommandView::Finish(Err(AntagonistErrorView::ApiError(ApiError::InvalidRequest))),
        ),
        !actor.at(Stage::CreatingAbsent).draws(Event::Called(result)),
        actor.at(Stage::CreatingAbsent).step(Event::Called(result)) == (
            actor.at(Stage::Idle),
            CommandView::Finish(outcome(result)),
        ),
{
}

/// How many answers a cycle takes at most, from a stage on, until it is over.
pub open spec fn answers_left(stage: Stage) -> nat {
    match stage {
        Stage::Idle => 5,
        Stage::Viewing => 4,
        Stage::Settling(_) => 3,
        Stage::Acting => 2,
        Stage::Cooling(_) => 1,
        Stage::CreatingAbsent => 1,
    }
}

/// Every cycle ends: an answer either ends the cycle, and then the antagonist
/// is between cycles again, or it brings the end nearer. So a cycle is over
/// after 5 answers at the latest, whatever the driver reports and whatever
/// the policy draws.
pub proof fn lemma_cycle_ends(actor: InstanceActorView, event: Event, action: Action)
    ensures
        ({
            let (then, command) = if actor.draws(event) {
                actor.act(action)
            } else {
                actor.step(event)
            };
            &&& command is Finish <==> then.stage is Idle
            &&& !(command is Finish) ==> answers_left(then.stage) < answers_left(actor.stage)
        }),
{
}

} // verus!
