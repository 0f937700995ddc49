use service_launcher::launch::{finish_launch, start_launch, LaunchError};
use service_launcher::listeners::{plan_listeners, ListenerKind, ListenerPlan};
use service_launcher::race::{Race, RaceStep, UnitOutcome};
use service_launcher::servers::{
    plan_grpc_server, plan_http_server, plan_metrics_server, HttpLayer, ServePlan,
};
use service_launcher::settings::{
    CorsSettings, GrpcServerSettings, HttpServerSettings, IpAddress, LaunchSettings,
    MetricsSettings, ServerSettings, SocketAddress,
};
use service_launcher::shutdown::{ShutdownWatcher, WatcherAction, SHUTDOWN_TIMEOUT_SEC};

fn local(port: u16) -> SocketAddress {
    SocketAddress { ip: IpAddress::V4 { bits: 0x7f00_0001 }, port }
}

fn cors(enabled: bool) -> CorsSettings {
    CorsSettings {
        enabled,
        allowed_origin: String::new(),
        allowed_methods: "PUT, GET, POST, OPTIONS, DELETE, PATCH".to_string(),
        allowed_credentials: true,
        max_age: 3600,
        block_on_origin_mismatch: false,
        send_wildcard: false,
    }
}

fn settings(http: bool, grpc: bool, metrics: bool) -> LaunchSettings {
    LaunchSettings {
        service_name: "svc".to_string(),
        server: ServerSettings {
            http: HttpServerSettings {
                enabled: http,
                addr: local(8080),
                max_body_size: 2 * 1024 * 1024,
                cors: cors(false),
            },
            grpc: GrpcServerSettings { enabled: grpc, addr: local(8081) },
        },
        metrics: MetricsSettings { enabled: metrics, addr: local(6060), route: "/metrics".to_string() },
    }
}

#[test]
fn every_subset_starts_exactly_the_enabled_listeners() {
    for mask in 0u8..8 {
        let (h, g, m) = (mask & 1 != 0, mask & 2 != 0, mask & 4 != 0);
        let plans = plan_listeners(&settings(h, g, m));
        let mut expected = vec![];
        if h {
            expected.push(ListenerPlan { kind: ListenerKind::Http, addr: local(8080) });
        }
        if g {
            expected.push(ListenerPlan { kind: ListenerKind::Grpc, addr: local(8081) });
        }
        if m {
            expected.push(ListenerPlan { kind: ListenerKind::Metrics, addr: local(6060) });
        }
        assert_eq!(plans, expected);
    }
}

#[test]
fn http_only_binds_once_and_waits_for_it() {
    let s = settings(true, false, false);
    let start = start_launch(&s);
    assert_eq!(start.listeners, vec![ListenerPlan { kind: ListenerKind::Http, addr: local(8080) }]);
    assert_eq!(start.step, RaceStep::Wait);
    assert_eq!(start.race.unit_count(), 1);
    assert!(!start.race.is_settled());
    let plan = plan_http_server(&s.server.http, false, true, SHUTDOWN_TIMEOUT_SEC);
    assert_eq!(plan.addr, local(8080));
    assert_eq!(plan.layers, vec![HttpLayer::Tracing, HttpLayer::BodyLimit(2_097_152)]);
    assert_eq!(plan.shutdown_timeout_secs, 10);
    assert!(plan.stop_on_signal);
    let mut race = start.race;
    let step = race.unit_finished(0, UnitOutcome::Completed);
    assert_eq!(
        step,
        RaceStep::Finish { winner: Some(0), abort: vec![], outcome: UnitOutcome::Completed }
    );
}

#[test]
fn nothing_enabled_succeeds_at_once() {
    let start = start_launch(&settings(false, false, false));
    assert!(start.listeners.is_empty());
    assert!(start.race.is_settled());
    assert_eq!(
        start.step,
        RaceStep::Finish { winner: None, abort: vec![], outcome: UnitOutcome::Completed }
    );
    assert_eq!(finish_launch(&start.listeners, None, UnitOutcome::Completed), Ok(()));
}

#[test]
fn first_failure_aborts_the_others_and_is_returned() {
    let start = start_launch(&settings(true, true, true));
    let mut race = start.race;
    let step = race.unit_finished(1, UnitOutcome::Failed("address in use".to_string()));
    assert_eq!(
        step,
        RaceStep::Finish {
            winner: Some(1),
            abort: vec![0, 2],
            outcome: UnitOutcome::Failed("address in use".to_string()),
        }
    );
    assert!(race.is_settled());
    assert_eq!(race.unit_finished(0, UnitOutcome::Failed("late".to_string())), RaceStep::Discard);
    assert_eq!(race.unit_finished(2, UnitOutcome::Completed), RaceStep::Discard);
    if let RaceStep::Finish { winner, outcome, .. } = step {
        assert_eq!(
            finish_launch(&start.listeners, winner, outcome),
            Err(LaunchError { listener: ListenerKind::Grpc, cause: "address in use".to_string() })
        );
    }
}

#[test]
fn race_of_five_aborts_all_but_the_winner() {
    let (mut race, step) = Race::new(5);
    assert_eq!(step, RaceStep::Wait);
    assert_eq!(
        race.unit_finished(3, UnitOutcome::Completed),
        RaceStep::Finish { winner: Some(3), abort: vec![0, 1, 2, 4], outcome: UnitOutcome::Completed }
    );
}

#[test]
fn outcome_into_result() {
    assert_eq!(UnitOutcome::Completed.into_result(), Ok(()));
    assert_eq!(UnitOutcome::Failed("boom".to_string()).into_result(), Err("boom".to_string()));
}

#[test]
fn graceful_shutdown_stops_within_window_and_succeeds() {
    let mut watcher = ShutdownWatcher::new(true, SHUTDOWN_TIMEOUT_SEC);
    assert!(!watcher.stop_requested());
    assert_eq!(watcher.on_signal(), WatcherAction::StopServer { graceful: true, timeout_secs: 10 });
    let start = start_launch(&settings(true, true, true));
    let mut race = start.race;
    if let RaceStep::Finish { winner, outcome, abort } = race.unit_finished(0, UnitOutcome::Completed) {
        assert_eq!(abort, vec![1, 2]);
        assert_eq!(finish_launch(&start.listeners, winner, outcome), Ok(()));
    } else {
        panic!("the race was not decided");
    }
}

#[test]
fn second_signal_has_no_effect() {
    let mut watcher = ShutdownWatcher::new(false, 3);
    assert_eq!(watcher.on_signal(), WatcherAction::StopServer { graceful: false, timeout_secs: 3 });
    assert!(watcher.stop_requested());
    assert_eq!(watcher.on_signal(), WatcherAction::Ignore);
    assert!(watcher.stop_requested());
}

#[test]
fn http_layers_in_fixed_order() {
    let mut s = settings(true, false, true).server.http;
    s.cors = cors(true);
    let plan = plan_http_server(&s, true, false, 7);
    assert_eq!(
        plan.layers,
        vec![HttpLayer::Tracing, HttpLayer::Metrics, HttpLayer::Cors, HttpLayer::BodyLimit(2_097_152)]
    );
    assert_eq!(plan.shutdown_timeout_secs, 7);
    assert!(!plan.stop_on_signal);
}

#[test]
fn grpc_and_metrics_plans() {
    let s = settings(false, true, true);
    assert_eq!(
        plan_grpc_server(&s.server.grpc, true),
        ServePlan { addr: local(8081), stop_on_signal: true }
    );
    assert_eq!(
        plan_metrics_server(&s.metrics, false),
        ServePlan { addr: local(6060), stop_on_signal: false }
    );
}
