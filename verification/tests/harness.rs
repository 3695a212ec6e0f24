use omicron_stress::actor::disk;
use omicron_stress::actor::instance;
use omicron_stress::actor::instance::InstanceState;
use omicron_stress::actor::policy::{ResourceKind, ResourceState};
use omicron_stress::actor::snapshot;
use omicron_stress::actor::{ActorKind, AntagonistError};
use omicron_stress::config::{Config, DEFAULT_COUNT};
use omicron_stress::harness::{
    disconnected, ends_run, make_actor, on_event, plan_actors, project, ActorSpec, HarnessEvent,
    LoopStep,
};
use omicron_stress::util::ApiError;
use std::collections::HashSet;

fn small(instances: usize, it: usize, disks: usize, dt: usize, snaps: usize, st: usize) -> Config {
    let mut config = Config::default();
    config.num_test_instances = instances;
    config.threads_per_instance = it;
    config.num_test_disks = disks;
    config.threads_per_disk = dt;
    config.num_test_snapshots = snaps;
    config.threads_per_snapshot = st;
    config
}

#[test]
fn the_defaults_are_four_of_everything() {
    let config = Config::default();
    assert_eq!(DEFAULT_COUNT, 4);
    assert_eq!(config.num_test_instances, 4);
    assert_eq!(config.threads_per_instance, 4);
    assert_eq!(config.num_test_disks, 4);
    assert_eq!(config.threads_per_disk, 4);
    assert_eq!(config.num_test_snapshots, 4);
    assert_eq!(config.threads_per_snapshot, 4);
    assert!(!config.snapshots_use_same_disk);
    assert!(!config.server_errors_fatal);
    assert_eq!(config.host_uri, None);
    assert_eq!(config.credentials_toml_dir, None);
    assert_eq!(config.hosts_toml_dir, None);
}

#[test]
fn the_project_is_named() {
    assert_eq!(project(), "omicron-stress");
}

#[test]
fn a_503_is_tolerated_while_server_errors_are_not_fatal() {
    let event = HarnessEvent::Error(AntagonistError::ApiError(ApiError::ErrorResponse(503)));
    assert_eq!(on_event(&event, false), LoopStep::Continue);
    assert!(!ends_run(&AntagonistError::ApiError(ApiError::ErrorResponse(503)), false));
}

#[test]
fn a_503_halts_the_run_while_server_errors_are_fatal() {
    let event = HarnessEvent::Error(AntagonistError::ApiError(ApiError::ErrorResponse(503)));
    assert_eq!(on_event(&event, true), LoopStep::Halt);
    let event = HarnessEvent::Error(AntagonistError::ApiError(ApiError::ErrorResponse(500)));
    assert_eq!(on_event(&event, true), LoopStep::Halt);
}

#[test]
fn other_error_responses_are_tolerated_in_both_modes() {
    for status in [400u16, 404, 409] {
        let e = AntagonistError::ApiError(ApiError::ErrorResponse(status));
        assert!(!ends_run(&e, false));
        assert!(!ends_run(&e, true));
        assert_eq!(on_event(&HarnessEvent::Error(e), true), LoopStep::Continue);
    }
}

#[test]
fn transport_failures_halt_the_run_in_both_modes() {
    for failure in [
        ApiError::CommunicationError,
        ApiError::InvalidUpgrade,
        ApiError::ResponseBodyError,
        ApiError::InvalidResponsePayload,
        ApiError::UnexpectedResponse,
        ApiError::Custom,
    ] {
        let e = AntagonistError::ApiError(failure);
        assert!(ends_run(&e, false), "{:?}", failure);
        assert!(ends_run(&e, true), "{:?}", failure);
        assert_eq!(on_event(&HarnessEvent::Error(e), false), LoopStep::Halt);
    }
}

#[test]
fn an_unsent_request_halts_the_run_only_in_lenient_mode() {
    let e = AntagonistError::ApiError(ApiError::InvalidRequest);
    assert!(ends_run(&e, false));
    assert!(!ends_run(&e, true));
}

#[test]
fn an_invalid_state_always_halts_the_run() {
    let e = AntagonistError::InvalidState {
        resource: "inst0".to_string(),
        state: ResourceState::Instance(InstanceState::Failed),
    };
    assert!(ends_run(&e, false));
    assert!(ends_run(&e, true));
    assert_eq!(on_event(&HarnessEvent::Error(e), false), LoopStep::Halt);
}

#[test]
fn any_other_error_always_halts_the_run() {
    let e = AntagonistError::OtherError("boom".to_string());
    assert!(ends_run(&e, false));
    assert!(ends_run(&e, true));
}

#[test]
fn an_interrupt_and_a_closed_channel_halt_the_run() {
    for mode in [false, true] {
        assert_eq!(on_event(&HarnessEvent::Interrupt, mode), LoopStep::Halt);
        assert_eq!(on_event(&HarnessEvent::ErrorsClosed, mode), LoopStep::Halt);
    }
}

#[test]
fn a_disconnected_actor_is_reported_by_name_and_halts_the_run() {
    let e = disconnected("disk3_1");
    assert_eq!(
        e,
        AntagonistError::OtherError(
            "the disk3_1 antagonist disconnected its error channel!".to_string()
        )
    );
    assert!(ends_run(&e, false));
    assert!(ends_run(&e, true));
}

#[test]
fn an_instance_actor_is_named_by_resource_and_thread() {
    assert_eq!(
        make_actor(ResourceKind::Instance, false, 2, 13),
        ActorSpec {
            name: "inst2_13".to_string(),
            kind: ActorKind::Instance(instance::Params {
                project: "omicron-stress".to_string(),
                instance_name: "inst2".to_string(),
            }),
        }
    );
}

#[test]
fn a_disk_actor_is_named_by_resource_and_thread() {
    assert_eq!(
        make_actor(ResourceKind::Disk, true, 0, 0),
        ActorSpec {
            name: "disk0_0".to_string(),
            kind: ActorKind::Disk(disk::Params {
                project: "omicron-stress".to_string(),
                disk_name: "disk0".to_string(),
            }),
        }
    );
}

#[test]
fn snapshot_actors_share_a_disk_only_when_asked() {
    assert_eq!(
        make_actor(ResourceKind::Snapshot, true, 3, 1),
        ActorSpec {
            name: "snapshot3_1".to_string(),
            kind: ActorKind::Snapshot(snapshot::Params {
                project: "omicron-stress".to_string(),
                disk_name: "disk3".to_string(),
                snapshot_name: "snapshot3".to_string(),
            }),
        }
    );
    assert_eq!(
        make_actor(ResourceKind::Snapshot, false, 3, 1),
        ActorSpec {
            name: "snapshot3_1".to_string(),
            kind: ActorKind::Snapshot(snapshot::Params {
                project: "omicron-stress".to_string(),
                disk_name: "disk31".to_string(),
                snapshot_name: "snapshot3".to_string(),
            }),
        }
    );
}

#[test]
fn the_roster_lists_instances_then_disks_then_snapshots() {
    let actors = plan_actors(&small(2, 2, 1, 3, 2, 1));
    let names: Vec<&str> = actors.iter().map(|a| a.name.as_str()).collect();
    assert_eq!(
        names,
        vec![
            "inst0_0", "inst0_1", "inst1_0", "inst1_1", "disk0_0", "disk0_1", "disk0_2",
            "snapshot0_0", "snapshot1_0"
        ]
    );
    assert_eq!(actors[2], make_actor(ResourceKind::Instance, false, 1, 0));
    assert_eq!(actors[6], make_actor(ResourceKind::Disk, false, 0, 2));
    assert_eq!(actors[8], make_actor(ResourceKind::Snapshot, false, 1, 0));
}

#[test]
fn the_default_roster_has_an_actor_for_every_pair_and_no_name_twice() {
    let actors = plan_actors(&Config::default());
    assert_eq!(actors.len(), 4 * 4 + 4 * 4 + 4 * 4);
    let names: HashSet<&str> = actors.iter().map(|a| a.name.as_str()).collect();
    assert_eq!(names.len(), actors.len());
}

#[test]
fn a_kind_without_resources_or_threads_has_no_actors() {
    assert_eq!(plan_actors(&small(0, 4, 0, 4, 0, 4)).len(), 0);
    assert_eq!(plan_actors(&small(4, 0, 4, 0, 4, 0)).len(), 0);
    assert_eq!(plan_actors(&small(0, 0, 3, 2, 0, 0)).len(), 6);
}

#[test]
fn the_roster_follows_the_shared_disk_flag() {
    let mut config = small(0, 0, 0, 0, 1, 2);
    config.snapshots_use_same_disk = true;
    let shared = plan_actors(&config);
    assert_eq!(shared[1], make_actor(ResourceKind::Snapshot, true, 0, 1));
    config.snapshots_use_same_disk = false;
    let own = plan_actors(&config);
    assert_eq!(own[1], make_actor(ResourceKind::Snapshot, false, 0, 1));
    assert_ne!(shared[1], own[1]);
}
