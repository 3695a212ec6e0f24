//! The harness: which actors a run starts, and what it makes of the errors
//! that they report.

use crate::actor::disk;
use crate::actor::instance;
use crate::actor::policy::ResourceKind;
use crate::actor::snapshot;
use crate::actor::{ActorKind, ActorKindView, AntagonistError, AntagonistErrorView};
use crate::config::Config;
use crate::util::{
    decimal, fail_if_500, fail_if_no_response, is_digit, lemma_decimal_is_digits,
    lemma_decimal_is_injective, to_decimal,
};
use vstd::arithmetic::div_mod::{
    lemma_fundamental_div_mod, lemma_mod_bound, lemma_multiply_divide_lt,
};
use vstd::prelude::*;
use vstd::string::*;

verus! {

/// The name of the project that the run's resources live in.
pub open spec fn project_name() -> Seq<char> {
    "omicron-stress"@
}

/// The name of the project that the run's resources live in.
pub fn project() -> (name: String)
    ensures
        name@ == project_name(),
{
    String::from_str("omicron-stress")
}

/// The stem of the names of the resources of a kind.
pub open spec fn stem(kind: ResourceKind) -> Seq<char> {
    match kind {
        ResourceKind::Instance => "inst"@,
        ResourceKind::Disk => "disk"@,
        ResourceKind::Snapshot => "snapshot"@,
    }
}

/// The stem of the names of the resources of a kind.
fn stem_of(kind: ResourceKind) -> (s: &'static str)
    ensures
        s@ == stem(kind),
{
    match kind {
        ResourceKind::Instance => "inst",
        ResourceKind::Disk => "disk",
        ResourceKind::Snapshot => "snapshot",
    }
}

/// An actor that a run starts: its name, and what it acts on.
#[derive(Clone, Debug, PartialEq, Eq)]
pub struct ActorSpec {
    /// The actor's name.
    pub name: String,
    /// The actor's kind, with the resource that it acts on.
    pub kind: ActorKind,
}

/// What an [`ActorSpec`] says.
pub struct ActorSpecView {
    pub name: Seq<char>,
    pub kind: ActorKindView,
}

impl View for ActorSpec {
    type V = ActorSpecView;

    open spec fn view(&self) -> ActorSpecView {
        ActorSpecView { name: self.name@, kind: self.kind@ }
    }
}

/// The name of a resource: the stem of its kind, then its number.
pub open spec fn resource_name(kind: ResourceKind, resource: nat) -> Seq<char> {
    stem(kind) + decimal(resource)
}

/// The name of an actor: the name of its resource, an underscore, and its
/// number among the actors of that resource.
pub open spec fn actor_name(kind: ResourceKind, resource: nat, thread: nat) -> Seq<char> {
    stem(kind) + decimal(resource) + "_"@ + decimal(thread)
}

/// The name of the disk behind a snapshot antagonist: the disk of the
/// snapshot's number where the antagonists of a snapshot share one, else a
/// disk of the antagonist's own, numbered by both.
pub open spec fn backing_disk_name(shared: bool, resource: nat, thread: nat) -> Seq<char> {
    if shared {
        stem(ResourceKind::Disk) + decimal(resource)
    } else {
        stem(ResourceKind::Disk) + decimal(resource) + decimal(thread)
    }
}

/// The actor that is started for the given resource of a kind, as the given
/// one of its antagonists.
pub open spec fn actor_for(kind: ResourceKind, shared: bool, resource: nat, thread: nat)
    -> ActorSpecView {
    ActorSpecView {
        name: actor_name(kind, resource, thread),
        kind: match kind {
            ResourceKind::Instance => ActorKindView::Instance {
                project: project_name(),
                instance_name: resource_name(kind, resource),
            },
            ResourceKind::Disk => ActorKindView::Disk {
                project: project_name(),
                disk_name: resource_name(kind, resource),
            },
            ResourceKind::Snapshot => ActorKindView::Snapshot {
                project: project_name(),
                disk_name: backing_disk_name(shared, resource, thread),
                snapshot_name: resource_name(kind, resource),
            },
        },
    }
}

/// The first `threads` actors of one resource, in order.
pub open spec fn resource_actors(kind: ResourceKind, shared: bool, resource: nat, threads: nat)
    -> Seq<ActorSpecView> {
    Seq::new(threads, |thread: int| actor_for(kind, shared, resource, thread as nat))
}

/// The actors of the first `count` resources of a kind, resource by
/// resource.
pub open spec fn kind_actors(kind: ResourceKind, shared: bool, count: nat, threads: nat) -> Seq<
    ActorSpecView,
>
    decreases count,
{
    if count == 0 {
        Seq::empty()
    } else {
        kind_actors(kind, shared, (count - 1) as nat, threads) + resource_actors(
            kind,
            shared,
            (count - 1) as nat,
            threads,
        )
    }
}

/// The actors that a run starts: for every instance, disk and snapshot that
/// the configuration counts, in this order, as many as it asks for each.
pub open spec fn roster(config: Config) -> Seq<ActorSpecView> {
    kind_actors(
        ResourceKind::Instance,
        config.snapshots_use_same_disk,
        config.num_test_instances as nat,
        config.threads_per_instance as nat,
    ) + kind_actors(
        ResourceKind::Disk,
        config.snapshots_use_same_disk,
        config.num_test_disks as nat,
        config.threads_per_disk as nat,
    ) + kind_actors(
        ResourceKind::Snapshot,
        config.snapshots_use_same_disk,
        config.num_test_snapshots as nat,
        config.threads_per_snapshot as nat,
    )
}

/// What a list of actors says.
pub open spec fn views(actors: Seq<ActorSpec>) -> Seq<ActorSpecView> {
    actors.map_values(|actor: ActorSpec| actor@)
}

/// Builds the name of a resource.
fn name_resource(kind: ResourceKind, resource: usize) -> (name: String)
    ensures
        name@ == resource_name(kind, resource as nat),
{
    String::from_str(stem_of(kind)).concat(to_decimal(resource as u64).as_str())
}

/// Builds the actor that is started for the given resource of a kind, as the
/// given one of its antagonists.
pub fn make_actor(kind: ResourceKind, shared: bool, resource: usize, thread: usize) -> (actor:
    ActorSpec)
    ensures
        actor@ == actor_for(kind, shared, resource as nat, thread as nat),
{
    let name = name_resource(kind, resource).concat("_").concat(
        to_decimal(thread as u64).as_str(),
    );
    let kind = match kind {
        ResourceKind::Instance => ActorKind::Instance(
            instance::Params { project: project(), instance_name: name_resource(kind, resource) },
        ),
        ResourceKind::Disk => ActorKind::Disk(
            disk::Params { project: project(), disk_name: name_resource(kind, resource) },
        ),
        ResourceKind::Snapshot => {
            let disk = name_resource(ResourceKind::Disk, resource);
            let disk_name = if shared {
                disk
            } else {
                disk.concat(to_decimal(thread as u64).as_str())
            };
            ActorKind::Snapshot(
                snapshot::Params {
                    project: project(),
                    disk_name,
                    snapshot_name: name_resource(kind, resource),
                },
            )
        },
    };
    ActorSpec { name, kind }
}

/// Appends the actors of `count` resources of a kind, `threads` for each.
fn push_actors(
    actors: &mut Vec<ActorSpec>,
    kind: ResourceKind,
    shared: bool,
    count: usize,
    threads: usize,
)
    ensures
        views(final(actors)@) == views(old(actors)@) + kind_actors(
            kind,
            shared,
            count as nat,
            threads as nat,
        ),
{
    let ghost before = views(actors@);
    let mut resource: usize = 0;
    proof {
        assert(views(actors@) =~= before + kind_actors(kind, shared, 0, threads as nat));
    }
    while resource < count
        invariant
            resource <= count,
            views(actors@) == before + kind_actors(kind, shared, resource as nat, threads as nat),
        decreases count - resource,
    {
        let ghost done = views(actors@);
        let mut thread: usize = 0;
        proof {
            assert(views(actors@) =~= done + resource_actors(kind, shared, resource as nat, 0));
        }
        while thread < threads
            invariant
                thread <= threads,
                views(actors@) == done + resource_actors(
                    kind,
                    shared,
                    resource as nat,
                    thread as nat,
                ),
            decreases threads - thread,
        {
            let ghost so_far = actors@;
            let actor = make_actor(kind, shared, resource, thread);
            actors.push(actor);
            proof {
                assert(views(actors@) =~= views(so_far).push(actor@));
                assert(views(actors@) =~= done + resource_actors(
                    kind,
                    shared,
                    resource as nat,
                    (thread + 1) as nat,
                ));
            }
            thread = thread + 1;
        }
        proof {
            assert(views(actors@) =~= before + kind_actors(
                kind,
                shared,
                (resource + 1) as nat,
                threads as nat,
            ));
        }
        resource = resource + 1;
    }
}

/// Lists the actors that a run starts.
pub fn plan_actors(config: &Config) -> (actors: Vec<ActorSpec>)
    ensures
        views(actors@) == roster(*config),
{
    let mut actors: Vec<ActorSpec> = Vec::new();
    let shared = config.snapshots_use_same_disk;
    proof {
        assert(views(actors@) =~= Seq::<ActorSpecView>::empty());
    }
    push_actors(
        &mut actors,
        ResourceKind::Instance,
        shared,
        config.num_test_instances,
        config.threads_per_instance,
    );
    push_actors(
        &mut actors,
        ResourceKind::Disk,
        shared,
        config.num_test_disks,
        config.threads_per_disk,
    );
    push_actors(
        &mut actors,
        ResourceKind::Snapshot,
        shared,
        config.num_test_snapshots,
        config.threads_per_snapshot,
    );
    proof {
        assert(views(actors@) =~= roster(*config));
    }
    actors
}

/// Whether an error that an actor reported ends the run.
///
/// A failed call ends it where the control plane produced no answer. Where it
/// produced an error response, that ends the run only if server errors are
/// fatal and the response is of the server-error class. A request that was
/// refused before it was sent ends the run unless server errors are fatal.
/// Every other error ends the run.
pub open spec fn is_fatal(error: AntagonistErrorView, server_errors_fatal: bool) -> bool {
    match error {
        AntagonistErrorView::ApiError(e) => if server_errors_fatal {
            e.fatal_when_strict()
        } else {
            e.fatal_when_lenient()
        },
        _ => true,
    }
}

/// Tells whether an error that an actor reported ends the run.
pub fn ends_run(error: &AntagonistError, server_errors_fatal: bool) -> (fatal: bool)
    ensures
        fatal == is_fatal(error@, server_errors_fatal),
{
    match error {
        AntagonistError::ApiError(e) => {
            let weighed = if server_errors_fatal {
                fail_if_500(*e)
            } else {
                fail_if_no_response(*e)
            };
            match weighed {
                Ok(()) => false,
                Err(_) => true,
            }
        },
        _ => true,
    }
}

/// What wakes the harness's loop.
#[derive(Clone, Debug, PartialEq, Eq)]
pub enum HarnessEvent {
    /// An actor reported an error.
    Error(AntagonistError),
    /// The channel on which the errors arrive has closed.
    ErrorsClosed,
    /// The operator asked for the run to stop.
    Interrupt,
}

/// What the harness's loop does after an event.
#[derive(Clone, Copy, Debug, PartialEq, Eq, Structural)]
pub enum LoopStep {
    /// Wait for the next event.
    Continue,
    /// Halt every actor, wait for all of them, and leave.
    Halt,
}

/// Decides what the harness's loop does after an event: it goes on after an
/// error that does not end the run, and halts after anything else.
pub fn on_event(event: &HarnessEvent, server_errors_fatal: bool) -> (step: LoopStep)
    ensures
        step == LoopStep::Continue <==> (event matches HarnessEvent::Error(e) && !is_fatal(
            e@,
            server_errors_fatal,
        )),
        step == LoopStep::Halt || step == LoopStep::Continue,
{
    match event {
        HarnessEvent::Error(e) => if ends_run(e, server_errors_fatal) {
            LoopStep::Halt
        } else {
            LoopStep::Continue
        },
        HarnessEvent::ErrorsClosed => LoopStep::Halt,
        HarnessEvent::Interrupt => LoopStep::Halt,
    }
}

/// What the error says that stands for an actor whose error channel closed.
pub open spec fn disconnect_message(name: Seq<char>) -> Seq<char> {
    "the "@ + name + " antagonist disconnected its error channel!"@
}

/// The error that stands for an actor whose error channel closed. It ends the
/// run.
pub fn disconnected(name: &str) -> (error: AntagonistError)
    ensures
        error@ == AntagonistErrorView::OtherError(disconnect_message(name@)),
        forall|server_errors_fatal: bool| is_fatal(error@, server_errors_fatal),
{
    AntagonistError::OtherError(
        String::from_str("the ").concat(name).concat(" antagonist disconnected its error channel!"),
    )
}

/// The number of actors of a kind: one for every pair of a resource and one
/// of its antagonists.
pub proof fn lemma_kind_actors_len(kind: ResourceKind, shared: bool, count: nat, threads: nat)
    ensures
        kind_actors(kind, shared, count, threads).len() == count * threads,
    decreases count,
{
    if count > 0 {
        lemma_kind_actors_len(kind, shared, (count - 1) as nat, threads);
        assert((count - 1) * threads + threads == count * threads) by (nonlinear_arith);
    } else {
        assert(0 * threads == 0) by (nonlinear_arith);
    }
}

/// Where the actor of a pair stands among the actors of its kind: the actors
/// of earlier resources come first, then the earlier actors of its own.
pub proof fn lemma_kind_actors_at(
    kind: ResourceKind,
    shared: bool,
    count: nat,
    threads: nat,
    resource: nat,
    thread: nat,
)
    requires
        resource < count,
        thread < threads,
    ensures
        resource * threads + thread < kind_actors(kind, shared, count, threads).len(),
        kind_actors(kind, shared, count, threads)[(resource * threads + thread) as int] == actor_for(
            kind,
            shared,
            resource,
            thread,
        ),
    decreases count,
{
    let earlier = kind_actors(kind, shared, (count - 1) as nat, threads);
    lemma_kind_actors_len(kind, shared, count, threads);
    lemma_kind_actors_len(kind, shared, (count - 1) as nat, threads);
    assert((count - 1) * threads + threads == count * threads) by (nonlinear_arith);
    if resource == count - 1 {
        assert(resource_actors(kind, shared, resource, threads)[thread as int] == actor_for(
            kind,
            shared,
            resource,
            thread,
        ));
    } else {
        lemma_kind_actors_at(kind, shared, (count - 1) as nat, threads, resource, thread);
    }
}

/// The run starts one actor for every pair that the configuration counts, and
/// no other: the roster is as long as there are pairs.
pub proof fn lemma_roster_len(config: Config)
    ensures
        roster(config).len() == config.num_test_instances * config.threads_per_instance
            + config.num_test_disks * config.threads_per_disk + config.num_test_snapshots
            * config.threads_per_snapshot,
{
    let shared = config.snapshots_use_same_disk;
    lemma_kind_actors_len(
        ResourceKind::Instance,
        shared,
        config.num_test_instances as nat,
        config.threads_per_instance as nat,
    );
    lemma_kind_actors_len(
        ResourceKind::Disk,
        shared,
        config.num_test_disks as nat,
        config.threads_per_disk as nat,
    );
    lemma_kind_actors_len(
        ResourceKind::Snapshot,
        shared,
        config.num_test_snapshots as nat,
        config.threads_per_snapshot as nat,
    );
}

/// The text of the stems, character by character.
proof fn lemma_stems()
    ensures
        stem(ResourceKind::Instance) == seq!['i', 'n', 's', 't'],
        stem(ResourceKind::Disk) == seq!['d', 'i', 's', 'k'],
        stem(ResourceKind::Snapshot) == seq!['s', 'n', 'a', 'p', 's', 'h', 'o', 't'],
        "_"@ == seq!['_'],
{
    reveal_strlit("inst");
    reveal_strlit("disk");
    reveal_strlit("snapshot");
    reveal_strlit("_");
    assert(stem(ResourceKind::Instance) =~= seq!['i', 'n', 's', 't']);
    assert(stem(ResourceKind::Disk) =~= seq!['d', 'i', 's', 'k']);
    assert(stem(ResourceKind::Snapshot) =~= seq!['s', 'n', 'a', 'p', 's', 'h', 'o', 't']);
    assert("_"@ =~= seq!['_']);
}

/// A number, an underscore and a number tell both numbers.
proof fn lemma_numbered_pair_is_injective(r1: nat, t1: nat, r2: nat, t2: nat)
    requires
        decimal(r1) + seq!['_'] + decimal(t1) == decimal(r2) + seq!['_'] + decimal(t2),
    ensures
        r1 == r2,
        t1 == t2,
{
    let x1 = decimal(r1) + seq!['_'] + decimal(t1);
    let x2 = decimal(r2) + seq!['_'] + decimal(t2);
    let a = decimal(r1).len() as int;
    let b = decimal(r2).len() as int;
    lemma_decimal_is_digits(r1);
    lemma_decimal_is_digits(r2);
    lemma_decimal_is_digits(t1);
    lemma_decimal_is_digits(t2);
    assert(x1[a] == '_');
    assert(x2[b] == '_');
    if a < b {
        assert(x2[a] == decimal(r2)[a]);
        assert(is_digit(decimal(r2)[a]));
        assert(false);
    }
    if b < a {
        assert(x1[b] == decimal(r1)[b]);
        assert(is_digit(decimal(r1)[b]));
        assert(false);
    }
    assert(decimal(r1) =~= x1.subrange(0, a));
    assert(decimal(r2) =~= x2.subrange(0, a));
    assert(decimal(t1) =~= x1.subrange(a + 1, x1.len() as int));
    assert(decimal(t2) =~= x2.subrange(a + 1, x2.len() as int));
    lemma_decimal_is_injective(r1, r2);
    lemma_decimal_is_injective(t1, t2);
}

/// Actors of different kinds, of different resources, or with different
/// numbers among the actors of their resource, have different names.
pub proof fn lemma_actor_names_differ(
    kind1: ResourceKind,
    resource1: nat,
    thread1: nat,
    kind2: ResourceKind,
    resource2: nat,
    thread2: nat,
)
    requires
        actor_name(kind1, resource1, thread1) == actor_name(kind2, resource2, thread2),
    ensures
        kind1 == kind2,
        resource1 == resource2,
        thread1 == thread2,
{
    lemma_stems();
    let n1 = actor_name(kind1, resource1, thread1);
    let n2 = actor_name(kind2, resource2, thread2);
    let x1 = decimal(resource1) + seq!['_'] + decimal(thread1);
    let x2 = decimal(resource2) + seq!['_'] + decimal(thread2);
    assert(n1 =~= stem(kind1) + x1);
    assert(n2 =~= stem(kind2) + x2);
    assert(n1[0] == stem(kind1)[0]);
    assert(n2[0] == stem(kind2)[0]);
    assert(kind1 == kind2);
    let l = stem(kind1).len() as int;
    assert(x1 =~= n1.subrange(l, n1.len() as int));
    assert(x2 =~= n2.subrange(l, n2.len() as int));
    lemma_numbered_pair_is_injective(resource1, thread1, resource2, thread2);
}

/// The pair that an index among the actors of a kind stands for.
proof fn lemma_kind_actors_index(
    kind: ResourceKind,
    shared: bool,
    count: nat,
    threads: nat,
    i: int,
)
    requires
        0 <= i < kind_actors(kind, shared, count, threads).len(),
    ensures
        threads > 0,
        0 <= i / (threads as int) < count,
        0 <= i % (threads as int) < threads,
        i == (i / (threads as int)) * threads + i % (threads as int),
        kind_actors(kind, shared, count, threads)[i] == actor_for(
            kind,
            shared,
            (i / (threads as int)) as nat,
            (i % (threads as int)) as nat,
        ),
{
    lemma_kind_actors_len(kind, shared, count, threads);
    if threads == 0 {
        assert(count * threads == 0) by (nonlinear_arith)
            requires
                threads == 0,
        ;
    }
    let d = threads as int;
    lemma_fundamental_div_mod(i, d);
    lemma_mod_bound(i, d);
    assert(i < d * (count as int)) by (nonlinear_arith)
        requires
            i < count * threads,
            d == threads,
    ;
    lemma_multiply_divide_lt(i, d, count as int);
    let q = i / d;
    let r = i % d;
    assert(0 <= q) by (nonlinear_arith)
        requires
            i == d * q + r,
            0 <= i,
            0 <= r < d,
    ;
    assert(d * q == q * d) by (nonlinear_arith);
    lemma_kind_actors_at(kind, shared, count, threads, q as nat, r as nat);
}

/// No two actors of a run go by the same name.
pub proof fn lemma_roster_names_are_distinct(config: Config, i: int, j: int)
    requires
        0 <= i < j < roster(config).len(),
    ensures
        roster(config)[i].name != roster(config)[j].name,
{
    let shared = config.snapshots_use_same_disk;
    let ni = config.num_test_instances as nat;
    let ti = config.threads_per_instance as nat;
    let nd = config.num_test_disks as nat;
    let td = config.threads_per_disk as nat;
    let ns = config.num_test_snapshots as nat;
    let ts = config.threads_per_snapshot as nat;
    let a = kind_actors(ResourceKind::Instance, shared, ni, ti);
    let b = kind_actors(ResourceKind::Disk, shared, nd, td);
    let c = kind_actors(ResourceKind::Snapshot, shared, ns, ts);
    let la = a.len() as int;
    let lb = b.len() as int;
    assert(roster(config) == a + b + c);
    // The kind, and the index within the kind, of each of the two.
    let (ki, ii, ci, hi) = if i < la {
        (ResourceKind::Instance, i, ni, ti)
    } else if i < la + lb {
        (ResourceKind::Disk, i - la, nd, td)
    } else {
        (ResourceKind::Snapshot, i - la - lb, ns, ts)
    };
    let (kj, jj, cj, hj) = if j < la {
        (ResourceKind::Instance, j, ni, ti)
    } else if j < la + lb {
        (ResourceKind::Disk, j - la, nd, td)
    } else {
        (ResourceKind::Snapshot, j - la - lb, ns, ts)
    };
    assert(roster(config)[i] == kind_actors(ki, shared, ci, hi)[ii]);
    assert(roster(config)[j] == kind_actors(kj, shared, cj, hj)[jj]);
    lemma_kind_actors_index(ki, shared, ci, hi, ii);
    lemma_kind_actors_index(kj, shared, cj, hj, jj);
    if roster(config)[i].name == roster(config)[j].name {
        lemma_actor_names_differ(
            ki,
            (ii / (hi as int)) as nat,
            (ii % (hi as int)) as nat,
            kj,
            (jj / (hj as int)) as nat,
            (jj % (hj as int)) as nat,
        );
        assert(ii == jj);
        assert(false);
    }
}

} // verus!
