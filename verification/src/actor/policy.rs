//! What an antagonist does next: a weighted random choice among the actions
//! that are legal in the state it observed.

use crate::actor::disk::DiskState;
use crate::actor::instance::InstanceState;
use crate::actor::snapshot::SnapshotState;
use crate::util::{drawable, sample_weighted, total_weight};
use vstd::prelude::*;

verus! {

/// The kinds of resource that antagonists act on.
#[derive(Clone, Copy, Debug, PartialEq, Eq, Structural)]
pub enum ResourceKind {
    /// A compute instance.
    Instance,
    /// A disk.
    Disk,
    /// A snapshot of a disk.
    Snapshot,
}

impl ResourceKind {
    /// The kind's name, as it appears in reports.
    pub open spec fn spec_name(self) -> Seq<char> {
        match self {
            ResourceKind::Instance => "instance"@,
            ResourceKind::Disk => "disk"@,
            ResourceKind::Snapshot => "snapshot"@,
        }
    }

    /// The kind's name, as it appears in reports.
    pub fn name(&self) -> (name: &'static str)
        ensures
            name@ == self.spec_name(),
    {
        match self {
            ResourceKind::Instance => "instance",
            ResourceKind::Disk => "disk",
            ResourceKind::Snapshot => "snapshot",
        }
    }
}

/// The state in which a resource of some kind was observed.
#[derive(Clone, Copy, Debug, PartialEq, Eq, Structural)]
pub enum ResourceState {
    /// An instance, in this state.
    Instance(InstanceState),
    /// A disk, in this state.
    Disk(DiskState),
    /// A snapshot, in this state.
    Snapshot(SnapshotState),
}

impl ResourceState {
    /// The kind of resource that was observed.
    pub open spec fn spec_kind(self) -> ResourceKind {
        match self {
            ResourceState::Instance(_) => ResourceKind::Instance,
            ResourceState::Disk(_) => ResourceKind::Disk,
            ResourceState::Snapshot(_) => ResourceKind::Snapshot,
        }
    }

    /// The kind of resource that was observed.
    pub fn kind(&self) -> (kind: ResourceKind)
        ensures
            kind == self.spec_kind(),
    {
        match self {
            ResourceState::Instance(_) => ResourceKind::Instance,
            ResourceState::Disk(_) => ResourceKind::Disk,
            ResourceState::Snapshot(_) => ResourceKind::Snapshot,
        }
    }

    /// The state's name, as it appears in reports.
    pub open spec fn spec_name(self) -> Seq<char> {
        match self {
            ResourceState::Instance(state) => state.spec_name(),
            ResourceState::Disk(state) => state.spec_name(),
            ResourceState::Snapshot(state) => state.spec_name(),
        }
    }

    /// The state's name, as it appears in reports.
    pub fn name(&self) -> (name: &'static str)
        ensures
            name@ == self.spec_name(),
    {
        match self {
            ResourceState::Instance(state) => state.name(),
            ResourceState::Disk(state) => state.name(),
            ResourceState::Snapshot(state) => state.name(),
        }
    }
}

/// Why the policy declined to choose.
#[derive(Clone, Copy, Debug, PartialEq, Eq, Structural)]
pub enum BailReason {
    /// The resource was observed in a state that the policy has no row for.
    InvalidState { state: ResourceState },
}

/// What an antagonist may do in one cycle.
#[derive(Clone, Copy, Debug, PartialEq, Eq, Structural)]
pub enum Action {
    /// Do nothing.
    Wait,
    /// Ask for the resource to be created.
    Create,
    /// Ask for the instance to be started.
    Start,
    /// Ask for the instance to be stopped.
    Stop,
    /// Ask for the resource to be deleted.
    Delete,
    /// Give the cycle up. Never drawn: the policy answers with it directly.
    Bail { reason: BailReason },
}

/// The number of actions that can be drawn.
pub const COLUMNS: usize = 5;

impl Action {
    /// The column of the weight table that belongs to this action; `Bail` has
    /// none.
    pub open spec fn column(self) -> Option<int> {
        match self {
            Action::Wait => Some(0),
            Action::Create => Some(1),
            Action::Start => Some(2),
            Action::Stop => Some(3),
            Action::Delete => Some(4),
            Action::Bail { .. } => None,
        }
    }

    /// The action that a column of the weight table belongs to.
    pub open spec fn at(column: int) -> Action {
        if column == 0 {
            Action::Wait
        } else if column == 1 {
            Action::Create
        } else if column == 2 {
            Action::Start
        } else if column == 3 {
            Action::Stop
        } else {
            Action::Delete
        }
    }

    /// The action that a column of the weight table belongs to.
    pub fn from_column(column: usize) -> (action: Action)
        requires
            column < COLUMNS,
        ensures
            action == Action::at(column as int),
            action.column() == Some(column as int),
    {
        if column == 0 {
            Action::Wait
        } else if column == 1 {
            Action::Create
        } else if column == 2 {
            Action::Start
        } else if column == 3 {
            Action::Stop
        } else {
            Action::Delete
        }
    }
}

/// The row of the weight table that a state falls in: the weights of Wait,
/// Create, Start, Stop and Delete, in this order, zero where the action is not
/// legal there. `None` for a state that falls in no row.
pub open spec fn row(state: ResourceState) -> Option<Seq<u32>> {
    match state {
        ResourceState::Instance(InstanceState::Creating)
        | ResourceState::Instance(InstanceState::Starting) => Some(seq![60u32, 10u32, 10u32, 10u32, 10u32]),
        ResourceState::Instance(InstanceState::Running)
        | ResourceState::Instance(InstanceState::Rebooting)
        | ResourceState::Instance(InstanceState::Stopping) => Some(seq![35u32, 5u32, 25u32, 25u32, 10u32]),
        ResourceState::Instance(InstanceState::Stopped) => Some(seq![25u32, 5u32, 40u32, 0u32, 20u32]),
        ResourceState::Instance(_) => None,
        ResourceState::Disk(DiskState::Creating) => Some(seq![70u32, 10u32, 0u32, 0u32, 20u32]),
        ResourceState::Disk(DiskState::Detached) => Some(seq![35u32, 30u32, 0u32, 0u32, 35u32]),
        ResourceState::Disk(_) => None,
        ResourceState::Snapshot(SnapshotState::Creating) => Some(seq![70u32, 10u32, 0u32, 0u32, 20u32]),
        ResourceState::Snapshot(SnapshotState::Ready)
        | ResourceState::Snapshot(SnapshotState::Destroyed) => Some(seq![35u32, 30u32, 0u32, 0u32, 35u32]),
        ResourceState::Snapshot(_) => None,
    }
}

/// Whether the policy draws an action in this state.
pub open spec fn legal(state: ResourceState) -> bool {
    row(state) is Some
}

/// The weight of an action in a state: zero where the action is never taken.
pub open spec fn weight(state: ResourceState, action: Action) -> nat {
    match (row(state), action.column()) {
        (Some(weights), Some(column)) => weights[column] as nat,
        _ => 0,
    }
}

/// Whether the policy may answer `action` in `state`: in a legal state any
/// action of weight above zero, in any other state the bail that names it.
pub open spec fn may_select(state: ResourceState, action: Action) -> bool {
    if legal(state) {
        weight(state, action) > 0
    } else {
        action == (Action::Bail { reason: BailReason::InvalidState { state } })
    }
}

/// The sum of a row of five weights.
proof fn lemma_total_of_row(a: u32, b: u32, c: u32, d: u32, e: u32)
    ensures
        total_weight(seq![a, b, c, d, e]) == a + b + c + d + e,
{
    let s5 = seq![a, b, c, d, e];
    let s4 = seq![a, b, c, d];
    let s3 = seq![a, b, c];
    let s2 = seq![a, b];
    let s1 = seq![a];
    assert(s5.drop_last() =~= s4);
    assert(s4.drop_last() =~= s3);
    assert(s3.drop_last() =~= s2);
    assert(s2.drop_last() =~= s1);
    assert(s1.drop_last() =~= Seq::<u32>::empty());
    assert(total_weight(Seq::<u32>::empty()) == 0);
    assert(total_weight(s1) == a);
    assert(total_weight(s2) == a + b);
    assert(total_weight(s3) == a + b + c);
    assert(total_weight(s4) == a + b + c + d);
}

/// Builds a row of the weight table.
fn make_row(wait: u32, create: u32, start: u32, stop: u32, delete: u32) -> (weights: Vec<u32>)
    requires
        0 < wait + create + start + stop + delete <= u32::MAX,
    ensures
        weights@ == seq![wait, create, start, stop, delete],
        drawable(weights@),
{
    let mut weights: Vec<u32> = Vec::new();
    weights.push(wait);
    weights.push(create);
    weights.push(start);
    weights.push(stop);
    weights.push(delete);
    proof {
        assert(weights@ =~= seq![wait, create, start, stop, delete]);
        lemma_total_of_row(wait, create, start, stop, delete);
    }
    weights
}

/// The row of the weight table that a state falls in, if it falls in one.
pub fn weights_for(state: ResourceState) -> (weights: Option<Vec<u32>>)
    ensures
        weights is Some <==> legal(state),
        weights matches Some(w) ==> row(state) == Some(w@) && drawable(w@) && w@.len() == COLUMNS,
{
    match state {
        ResourceState::Instance(s) => match s {
            InstanceState::Creating | InstanceState::Starting => Some(make_row(60, 10, 10, 10, 10)),
            InstanceState::Running | InstanceState::Rebooting | InstanceState::Stopping => Some(
                make_row(35, 5, 25, 25, 10),
            ),
            InstanceState::Stopped => Some(make_row(25, 5, 40, 0, 20)),
            InstanceState::Migrating
            | InstanceState::Repairing
            | InstanceState::Failed
            | InstanceState::Destroyed => None,
        },
        ResourceState::Disk(s) => match s {
            DiskState::Creating => Some(make_row(70, 10, 0, 0, 20)),
            DiskState::Detached => Some(make_row(35, 30, 0, 0, 35)),
            _ => None,
        },
        ResourceState::Snapshot(s) => match s {
            SnapshotState::Creating => Some(make_row(70, 10, 0, 0, 20)),
            SnapshotState::Ready | SnapshotState::Destroyed => Some(make_row(35, 30, 0, 0, 35)),
            SnapshotState::Faulted => None,
        },
    }
}

/// The policy's answer once the draw is known: the action of the drawn
/// column in a legal state, the bail that names the state in any other.
pub fn action_for_draw(state: ResourceState, column: usize) -> (action: Action)
    requires
        column < COLUMNS,
    ensures
        legal(state) ==> action == Action::at(column as int),
        !legal(state) ==> action == (Action::Bail { reason: BailReason::InvalidState { state } }),
{
    match weights_for(state) {
        Some(_) => Action::from_column(column),
        None => Action::Bail { reason: BailReason::InvalidState { state } },
    }
}

/// Chooses what to do with a resource that was observed in `state`.
///
/// In a state that falls in a row of the weight table, draws one of the
/// actions at random, each with a chance in proportion to its weight: never a
/// bail, never an action of weight zero. In any other state answers, without a
/// draw, the bail that names the state.
pub fn select_action(state: ResourceState) -> (action: Action)
    ensures
        may_select(state, action),
        legal(state) ==> !(action is Bail) && weight(state, action) > 0,
        !legal(state) ==> action == (Action::Bail { reason: BailReason::InvalidState { state } }),
{
    match weights_for(state) {
        Some(weights) => {
            let column = sample_weighted(&weights);
            action_for_draw(state, column)
        },
        None => Action::Bail { reason: BailReason::InvalidState { state } },
    }
}

/// Every row of the weight table can be drawn from: its weights sum to a
/// total above zero that fits their type.
pub proof fn lemma_rows_are_drawable(state: ResourceState)
    requires
        legal(state),
    ensures
        row(state).unwrap().len() == COLUMNS,
        drawable(row(state).unwrap()),
        total_weight(row(state).unwrap()) == 100 || total_weight(row(state).unwrap()) == 90,
{
    let weights = row(state).unwrap();
    assert(weights.len() == 5);
    assert(weights =~= seq![weights[0], weights[1], weights[2], weights[3], weights[4]]);
    lemma_total_of_row(weights[0], weights[1], weights[2], weights[3], weights[4]);
}

/// In a legal state the policy can answer with an action, and never with a
/// bail; in any other state it can answer with nothing but the bail that
/// names the state.
pub proof fn lemma_policy_answers(state: ResourceState, action: Action)
    requires
        may_select(state, action),
    ensures
        legal(state) <==> !(action is Bail),
        (action matches Action::Bail { reason: BailReason::InvalidState { state: named } }
            ==> named == state),
        may_select(state, Action::Wait) <==> legal(state),
{
}

} // verus!
