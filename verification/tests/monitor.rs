use linkup::action::Action;
use linkup::config::NgrokInstance;
use linkup::ledger::NotificationLedger;
use linkup::manager::NgrokManager;
use linkup::monitor::handle_discovery_result;
use linkup::monitor::handle_initial_discovery;
use linkup::monitor::handle_spawn_result;
use linkup::monitor::handle_unhealthy;
use linkup::process::ProcessHandle;
use linkup::tunnel::NgrokTunnel;
use linkup::tunnel::NgrokTunnelConfig;

fn inst(name: &str) -> NgrokInstance {
    NgrokInstance {
        name: String::from(name),
        authtoken: String::from("tok_abc"),
        port: 8000,
        protocol: String::from("http"),
        region: String::from("us"),
    }
}

fn tunnel() -> NgrokTunnel {
    NgrokTunnel {
        public_url: String::from("https://example.ngrok.app"),
        proto: String::from("https"),
        config: NgrokTunnelConfig { addr: String::from("localhost:8000") },
    }
}

#[test]
fn auto_restart_disabled_does_nothing() {
    let mut m = NgrokManager::new();
    m.add_instance(inst("api")).unwrap();
    let acts = handle_unhealthy(&mut m, &String::from("api"), false);
    assert!(acts.is_empty());
}

#[test]
fn unhealthy_instance_gets_one_restart_and_one_ready() {
    let mut m = NgrokManager::new();
    let mut ledger = NotificationLedger::new();
    let name = String::from("api");
    m.add_instance(inst("api")).unwrap();

    // tick: "api" is unhealthy, auto-restart is on
    let acts = handle_unhealthy(&mut m, &name, true);
    assert_eq!(
        acts,
        vec![
            Action::NotifyRestarting { name: String::from("api") },
            Action::Wait { seconds: 2 },
            Action::SpawnInstance { name: String::from("api") },
            Action::Wait { seconds: 3 },
        ]
    );
    let restarting = acts
        .iter()
        .filter(|a| matches!(a, Action::NotifyRestarting { .. }))
        .count();
    assert_eq!(restarting, 1);

    // the spawn succeeded
    let acts = handle_spawn_result(&mut m, &ledger, &name, Some(ProcessHandle { pid: 5 }));
    assert_eq!(
        acts,
        vec![
            Action::Wait { seconds: 5 },
            Action::Discover { name: String::from("api") },
        ]
    );
    assert!(m.is_healthy(&name));

    // discovery returned one tunnel: exactly one "ready" notification
    let tunnels = vec![tunnel()];
    let acts = handle_discovery_result(&mut ledger, &name, Some(&tunnels));
    assert_eq!(acts, vec![Action::NotifyReady { name: String::from("api") }]);
    assert!(ledger.is_notified(&name));
}

#[test]
fn unhealthy_unknown_instance_reports_failure() {
    let mut m = NgrokManager::new();
    let acts = handle_unhealthy(&mut m, &String::from("ghost"), true);
    assert_eq!(
        acts,
        vec![
            Action::NotifyRestarting { name: String::from("ghost") },
            Action::NotifyRestartFailed { name: String::from("ghost") },
        ]
    );
}

#[test]
fn failed_spawn_reports_restart_failed() {
    let mut m = NgrokManager::new();
    let ledger = NotificationLedger::new();
    let name = String::from("api");
    m.add_instance(inst("api")).unwrap();
    let acts = handle_spawn_result(&mut m, &ledger, &name, None);
    assert_eq!(acts, vec![Action::NotifyRestartFailed { name: String::from("api") }]);
    assert!(!m.is_healthy(&name));
}

#[test]
fn notified_instance_is_not_rediscovered() {
    let mut m = NgrokManager::new();
    let mut ledger = NotificationLedger::new();
    let name = String::from("api");
    m.add_instance(inst("api")).unwrap();
    ledger.mark_notified(&name);
    let acts = handle_spawn_result(&mut m, &ledger, &name, Some(ProcessHandle { pid: 5 }));
    assert_eq!(acts, vec![Action::Wait { seconds: 5 }]);
}

#[test]
fn empty_discovery_changes_nothing() {
    let mut ledger = NotificationLedger::new();
    let name = String::from("api");
    let tunnels: Vec<NgrokTunnel> = Vec::new();
    let acts = handle_discovery_result(&mut ledger, &name, Some(&tunnels));
    assert!(acts.is_empty());
    assert!(!ledger.is_notified(&name));
}

#[test]
fn discovery_error_keeps_retry_eligibility() {
    let mut ledger = NotificationLedger::new();
    let name = String::from("api");

    // the discovery call failed: state unchanged, nothing sent
    let acts = handle_discovery_result(&mut ledger, &name, None);
    assert!(acts.is_empty());
    assert!(!ledger.is_notified(&name));

    // the next qualifying tick still emits the ready notification
    let tunnels = vec![tunnel()];
    let acts = handle_discovery_result(&mut ledger, &name, Some(&tunnels));
    assert_eq!(acts, vec![Action::NotifyReady { name: String::from("api") }]);
}

#[test]
fn ready_is_emitted_at_most_once() {
    let mut ledger = NotificationLedger::new();
    let name = String::from("api");
    let tunnels = vec![tunnel()];

    let first = handle_discovery_result(&mut ledger, &name, Some(&tunnels));
    assert_eq!(first.len(), 1);

    // non-empty results on later ticks without an intervening clear stay silent
    let second = handle_discovery_result(&mut ledger, &name, Some(&tunnels));
    assert!(second.is_empty());
    let third = handle_discovery_result(&mut ledger, &name, Some(&tunnels));
    assert!(third.is_empty());
}

#[test]
fn initial_discovery_error_notifies_error() {
    let mut ledger = NotificationLedger::new();
    let name = String::from("api");
    let acts = handle_initial_discovery(&mut ledger, &name, None);
    assert_eq!(acts, vec![Action::NotifyError { name: String::from("api") }]);
    assert!(!ledger.is_notified(&name));
}

#[test]
fn initial_discovery_success_marks_ledger() {
    let mut ledger = NotificationLedger::new();
    let name = String::from("api");
    let tunnels = vec![tunnel()];
    let acts = handle_initial_discovery(&mut ledger, &name, Some(&tunnels));
    assert_eq!(acts, vec![Action::NotifyReady { name: String::from("api") }]);
    assert!(ledger.is_notified(&name));
}

#[test]
fn clearing_the_ledger_re_enables_ready() {
    let mut ledger = NotificationLedger::new();
    let name = String::from("api");
    let tunnels = vec![tunnel()];
    assert_eq!(handle_discovery_result(&mut ledger, &name, Some(&tunnels)).len(), 1);
    assert!(handle_discovery_result(&mut ledger, &name, Some(&tunnels)).is_empty());
    ledger.clear(&name);
    assert!(!ledger.is_notified(&name));
    assert_eq!(handle_discovery_result(&mut ledger, &name, Some(&tunnels)).len(), 1);
}
