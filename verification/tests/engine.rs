use kube::runtime::controller::Action;
use shazamq_operator::crd::ShazamqClusterSpec;
use shazamq_operator::engine::{
    resolve_namespace, to_action, Command, Event, Reconciler, RequeueDirective, Step,
    FAILURE_REQUEUE_SECS, SUCCESS_REQUEUE_SECS,
};
use shazamq_operator::status::{project_phase, project_status, Phase};
use std::time::Duration;

#[test]
fn none_ready_is_creating() {
    let mut spec = ShazamqClusterSpec::with_defaults(3);
    spec.version = "1.2.0".to_string();
    let status = project_status(&spec, Some(0));
    assert_eq!(status.phase, Some("Creating".to_string()));
    assert_eq!(status.replicas, Some(3));
    assert_eq!(status.ready_replicas, Some(0));
    assert!(status.conditions.is_none());
    assert!(status.brokers.is_none());
}

#[test]
fn all_ready_is_running() {
    let spec = ShazamqClusterSpec::with_defaults(3);
    let status = project_status(&spec, Some(3));
    assert_eq!(status.phase, Some("Running".to_string()));
    assert_eq!(status.replicas, Some(3));
    assert_eq!(status.ready_replicas, Some(3));
}

#[test]
fn no_replicas_is_running_at_once() {
    let spec = ShazamqClusterSpec::with_defaults(0);
    let status = project_status(&spec, None);
    assert_eq!(status.phase, Some("Running".to_string()));
    assert_eq!(status.replicas, Some(0));
    assert_eq!(status.ready_replicas, Some(0));
    let status = project_status(&spec, Some(0));
    assert_eq!(status.phase, Some("Running".to_string()));
}

#[test]
fn updating_between_none_and_all() {
    let spec = ShazamqClusterSpec::with_defaults(3);
    let status = project_status(&spec, Some(2));
    assert_eq!(status.phase, Some("Updating".to_string()));
    assert_eq!(status.ready_replicas, Some(2));
}

#[test]
fn nothing_observed_counts_as_none_ready() {
    let spec = ShazamqClusterSpec::with_defaults(2);
    let status = project_status(&spec, None);
    assert_eq!(status.phase, Some("Creating".to_string()));
    assert_eq!(status.ready_replicas, Some(0));
}

#[test]
fn phase_table() {
    for replicas in 0..=6 {
        for ready in 0..=replicas {
            let phase = project_phase(replicas, ready);
            assert_eq!(phase == Phase::Running, ready == replicas);
            assert_eq!(phase == Phase::Creating, ready == 0 && replicas > 0);
            assert_eq!(phase == Phase::Updating, 0 < ready && ready < replicas);
        }
    }
    assert_eq!(Phase::Creating.as_str(), "Creating");
    assert_eq!(Phase::Updating.as_str(), "Updating");
    assert_eq!(Phase::Running.as_str(), "Running");
}

#[test]
fn ready_count_is_capped_at_the_number_asked_for() {
    assert_eq!(project_phase(3, 5), Phase::Updating);
    let spec = ShazamqClusterSpec::with_defaults(3);
    let status = project_status(&spec, Some(5));
    assert_eq!(status.phase, Some("Updating".to_string()));
    assert_eq!(status.replicas, Some(3));
    assert_eq!(status.ready_replicas, Some(3));
    let none = ShazamqClusterSpec::with_defaults(0);
    let status = project_status(&none, Some(2));
    assert_eq!(status.replicas, Some(0));
    assert_eq!(status.ready_replicas, Some(0));
}

#[test]
fn ready_count_never_exceeds_replicas() {
    for replicas in 0..=5 {
        let spec = ShazamqClusterSpec::with_defaults(replicas);
        for seen in 0..=8 {
            let status = project_status(&spec, Some(seen));
            assert!(status.ready_replicas.unwrap() <= status.replicas.unwrap());
            assert_eq!(status.ready_replicas, Some(seen.min(replicas)));
        }
    }
}

#[test]
fn a_copy_of_the_engine_has_the_same_identity() {
    let engine = Reconciler::new();
    let copy = engine.clone();
    assert_eq!(copy.field_manager(), "shazamq-operator");
    assert_eq!(copy.patch_params().field_manager, Some("shazamq-operator".to_string()));
}

#[test]
fn a_cycle_goes_through_its_steps_in_order() {
    let engine = Reconciler::new();
    let spec = ShazamqClusterSpec::with_defaults(3);
    let (step, command) = engine.reconcile(&spec, "orders", "prod", Step::Start, Event::Started);
    assert_eq!(step, Step::Config);
    match command {
        Command::ApplyConfig(c) => assert_eq!(c.name, "orders-config"),
        other => panic!("{:?}", other),
    }
    let (step, command) = engine.reconcile(&spec, "orders", "prod", step, Event::Applied);
    assert_eq!(step, Step::ClientEndpoint);
    match command {
        Command::ApplyEndpoint(e) => assert_eq!(e.name, "orders"),
        other => panic!("{:?}", other),
    }
    let (step, command) = engine.reconcile(&spec, "orders", "prod", step, Event::Applied);
    assert_eq!(step, Step::DiscoveryEndpoint);
    match command {
        Command::ApplyEndpoint(e) => assert_eq!(e.name, "orders-headless"),
        other => panic!("{:?}", other),
    }
    let (step, command) = engine.reconcile(&spec, "orders", "prod", step, Event::Applied);
    assert_eq!(step, Step::ReplicaGroup);
    match command {
        Command::ApplyReplicaGroup(g) => {
            assert_eq!(g.name, "orders");
            assert_eq!(g.replicas, 3);
        }
        other => panic!("{:?}", other),
    }
    let (step, command) = engine.reconcile(&spec, "orders", "prod", step, Event::Applied);
    assert_eq!(step, Step::Health);
    match command {
        Command::ReadReplicaGroup(n) => assert_eq!(n, "orders"),
        other => panic!("{:?}", other),
    }
    let (step, command) = engine.reconcile(&spec, "orders", "prod", step, Event::Observed(Some(1)));
    assert_eq!(step, Step::Status);
    match command {
        Command::ApplyStatus(s) => {
            assert_eq!(s.phase, Some("Updating".to_string()));
            assert_eq!(s.replicas, Some(3));
            assert_eq!(s.ready_replicas, Some(1));
        }
        other => panic!("{:?}", other),
    }
    let (step, command) = engine.reconcile(&spec, "orders", "prod", step, Event::Applied);
    assert_eq!(step, Step::Done);
    match command {
        Command::Requeue(d) => assert_eq!(d.after_secs, 300),
        other => panic!("{:?}", other),
    }
}

#[test]
fn a_failure_ends_the_cycle_at_its_step() {
    let engine = Reconciler::new();
    let spec = ShazamqClusterSpec::with_defaults(3);
    for step in [
        Step::Start,
        Step::Config,
        Step::ClientEndpoint,
        Step::DiscoveryEndpoint,
        Step::ReplicaGroup,
        Step::Health,
        Step::Status,
        Step::Done,
    ] {
        let (next, command) = engine.reconcile(&spec, "orders", "prod", step, Event::Failed);
        assert_eq!(next, Step::Done);
        match command {
            Command::Abort(at) => assert_eq!(at, step),
            other => panic!("{:?}", other),
        }
    }
}

#[test]
fn an_event_out_of_turn_ends_the_cycle() {
    let engine = Reconciler::new();
    let spec = ShazamqClusterSpec::with_defaults(3);
    let (next, command) = engine.reconcile(&spec, "o", "p", Step::Health, Event::Applied);
    assert_eq!(next, Step::Done);
    assert!(matches!(command, Command::Abort(Step::Health)));
    let (next, command) = engine.reconcile(&spec, "o", "p", Step::Config, Event::Observed(None));
    assert_eq!(next, Step::Done);
    assert!(matches!(command, Command::Abort(Step::Config)));
    let (next, command) = engine.reconcile(&spec, "o", "p", Step::Done, Event::Applied);
    assert_eq!(next, Step::Done);
    assert!(matches!(command, Command::Abort(Step::Done)));
}

#[test]
fn requeue_intervals() {
    let engine = Reconciler::new();
    assert_eq!(SUCCESS_REQUEUE_SECS, 300);
    assert_eq!(FAILURE_REQUEUE_SECS, 60);
    assert_eq!(engine.error_policy(), RequeueDirective { after_secs: 60 });
    assert_eq!(engine.field_manager(), "shazamq-operator");
}

#[test]
fn directive_becomes_the_action_of_the_harness() {
    let ok = to_action(RequeueDirective { after_secs: 300 });
    assert_eq!(ok, Action::requeue(Duration::from_secs(300)));
    assert_ne!(ok, Action::requeue(Duration::from_secs(60)));
    assert_ne!(ok, Action::await_change());
    let failed = to_action(Reconciler::new().error_policy());
    assert_eq!(failed, Action::requeue(Duration::from_secs(60)));
}

#[test]
fn namespace_falls_back_to_default() {
    assert_eq!(resolve_namespace(None), "default");
    assert_eq!(resolve_namespace(Some("prod".to_string())), "prod");
    assert_eq!(resolve_namespace(Some(String::new())), "");
}

#[test]
fn every_apply_names_the_operator_as_actor() {
    let params = Reconciler::new().patch_params();
    assert_eq!(params.field_manager, Some("shazamq-operator".to_string()));
    assert!(!params.dry_run);
    assert!(!params.force);
    assert!(params.field_validation.is_none());
}
