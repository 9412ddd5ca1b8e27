use linkup::action::Action;
use linkup::config::NgrokInstance;
use linkup::errors::SupervisorError;
use linkup::manager::NgrokManager;
use linkup::manager::configure_instances;
use linkup::process::NgrokProcess;
use linkup::process::ProcessHandle;

fn inst(name: &str, token: &str, port: u16) -> NgrokInstance {
    NgrokInstance {
        name: String::from(name),
        authtoken: String::from(token),
        port,
        protocol: String::from("http"),
        region: String::from("us"),
    }
}

#[test]
fn kill_releases_the_handle_once() {
    let mut p = NgrokProcess { config: inst("web", "tok_abc", 8000), process: Some(ProcessHandle { pid: 9 }) };
    assert_eq!(p.kill(), Some(ProcessHandle { pid: 9 }));
    assert_eq!(p.config.name, String::from("web"));
    // killing an already-stopped instance is a no-op
    assert_eq!(p.kill(), None);
}

#[test]
fn register_valid_instance() {
    let mut m = NgrokManager::new();
    assert_eq!(m.add_instance(inst("web", "tok_abc123", 8080)), Ok(()));
    let names = m.all_names();
    assert_eq!(names, vec![String::from("web")]);
}

#[test]
fn register_empty_token_rejected() {
    let mut m = NgrokManager::new();
    assert_eq!(
        m.add_instance(inst("web", "", 8080)),
        Err(SupervisorError::ValidationError)
    );
    assert!(m.all_names().is_empty());
}

#[test]
fn register_placeholder_token_rejected() {
    let mut m = NgrokManager::new();
    assert_eq!(
        m.add_instance(inst("web", "your_token_here", 8080)),
        Err(SupervisorError::ValidationError)
    );
    assert!(m.all_names().is_empty());
}

#[test]
fn duplicate_name_overwrites() {
    let mut m = NgrokManager::new();
    assert_eq!(m.add_instance(inst("web", "tok_one", 8080)), Ok(()));
    assert_eq!(m.add_instance(inst("web", "tok_two", 9090)), Ok(()));
    assert_eq!(m.all_names(), vec![String::from("web")]);
    // the later registration replaced the earlier one
    let args = m.spawn_args(&String::from("web")).unwrap();
    assert_eq!(args[1], String::from("9090"));
    assert_eq!(args[3], String::from("tok_two"));
}

#[test]
fn healthy_only_after_successful_start() {
    let mut m = NgrokManager::new();
    let name = String::from("web");
    m.add_instance(inst("web", "tok_abc", 8000)).unwrap();
    assert!(!m.is_healthy(&name));
    assert_eq!(m.start_instance(&name, Some(ProcessHandle { pid: 1234 })), Ok(()));
    assert!(m.is_healthy(&name));
}

#[test]
fn start_unregistered_is_not_found() {
    let mut m = NgrokManager::new();
    assert_eq!(
        m.start_instance(&String::from("ghost"), Some(ProcessHandle { pid: 1 })),
        Err(SupervisorError::NotFound)
    );
}

#[test]
fn spawn_failure_leaves_no_handle() {
    let mut m = NgrokManager::new();
    let name = String::from("web");
    m.add_instance(inst("web", "tok_abc", 8000)).unwrap();
    assert_eq!(m.start_instance(&name, None), Err(SupervisorError::SpawnError));
    assert!(!m.is_healthy(&name));
}

#[test]
fn stop_is_idempotent() {
    let mut m = NgrokManager::new();
    let name = String::from("web");
    m.add_instance(inst("web", "tok_abc", 8000)).unwrap();
    m.start_instance(&name, Some(ProcessHandle { pid: 42 })).unwrap();
    assert_eq!(m.stop_instance(&name), Ok(Some(ProcessHandle { pid: 42 })));
    assert!(!m.is_healthy(&name));
    assert_eq!(m.stop_instance(&name), Ok(None));
}

#[test]
fn stop_unregistered_is_not_found() {
    let mut m = NgrokManager::new();
    assert_eq!(m.stop_instance(&String::from("ghost")), Err(SupervisorError::NotFound));
}

#[test]
fn check_health_reports_every_instance() {
    let mut m = NgrokManager::new();
    m.add_instance(inst("up", "tok_a", 8000)).unwrap();
    m.add_instance(inst("down", "tok_b", 8001)).unwrap();
    m.start_instance(&String::from("up"), Some(ProcessHandle { pid: 7 })).unwrap();
    let health = m.check_health();
    assert_eq!(
        health,
        vec![(String::from("up"), true), (String::from("down"), false)]
    );
}

#[test]
fn spawn_args_exact() {
    let mut m = NgrokManager::new();
    m.add_instance(inst("web", "tok_abc123", 8080)).unwrap();
    let args = m.spawn_args(&String::from("web")).unwrap();
    let expect: Vec<String> = vec![
        String::from("http"),
        String::from("8080"),
        String::from("--authtoken"),
        String::from("tok_abc123"),
        String::from("--region"),
        String::from("us"),
        String::from("--log"),
        String::from("stdout"),
        String::from("--log-format"),
        String::from("json"),
    ];
    assert_eq!(args, expect);
}

#[test]
fn spawn_args_unregistered_is_not_found() {
    let m = NgrokManager::new();
    assert_eq!(
        m.spawn_args(&String::from("ghost")),
        Err(SupervisorError::NotFound)
    );
}

#[test]
fn restart_stops_then_starts_with_cooldown() {
    let mut m = NgrokManager::new();
    let name = String::from("web");
    m.add_instance(inst("web", "tok_abc", 8000)).unwrap();
    m.start_instance(&name, Some(ProcessHandle { pid: 7 })).unwrap();
    let plan = m.restart_instance(&name).unwrap();
    assert_eq!(
        plan,
        vec![
            Action::KillProcess { name: String::from("web"), pid: 7 },
            Action::Wait { seconds: 2 },
            Action::SpawnInstance { name: String::from("web") },
            Action::Wait { seconds: 3 },
        ]
    );
    // the stop half already happened; the instance is down until the spawn
    // outcome is reported
    assert!(!m.is_healthy(&name));
    m.start_instance(&name, Some(ProcessHandle { pid: 8 })).unwrap();
    assert!(m.is_healthy(&name));
}

#[test]
fn restart_without_handle_skips_the_kill() {
    let mut m = NgrokManager::new();
    let name = String::from("web");
    m.add_instance(inst("web", "tok_abc", 8000)).unwrap();
    let plan = m.restart_instance(&name).unwrap();
    assert_eq!(
        plan,
        vec![
            Action::Wait { seconds: 2 },
            Action::SpawnInstance { name: String::from("web") },
            Action::Wait { seconds: 3 },
        ]
    );
}

#[test]
fn restart_unregistered_is_not_found() {
    let mut m = NgrokManager::new();
    assert_eq!(
        m.restart_instance(&String::from("ghost")),
        Err(SupervisorError::NotFound)
    );
}

#[test]
fn configure_instances_keeps_only_valid_tokens() {
    let mut m = NgrokManager::new();
    let configs = vec![
        inst("api", "tok_valid", 8000),
        inst("bad", "your_token_here", 8001),
    ];
    let names = configure_instances(&mut m, &configs).unwrap();
    assert_eq!(names, vec![String::from("api")]);
    assert_eq!(m.all_names(), vec![String::from("api")]);
    // a start pass over the registered names starts only the valid one
    for name in m.all_names() {
        m.start_instance(&name, Some(ProcessHandle { pid: 11 })).unwrap();
    }
    assert!(m.is_healthy(&String::from("api")));
    assert!(!m.is_healthy(&String::from("bad")));
}

#[test]
fn configure_instances_with_no_valid_instance_fails() {
    let mut m = NgrokManager::new();
    let configs = vec![inst("a", "", 8000), inst("b", "your_key", 8001)];
    assert_eq!(
        configure_instances(&mut m, &configs),
        Err(SupervisorError::ValidationError)
    );
    assert!(m.all_names().is_empty());
}

#[test]
fn start_all_attempts_every_registered_instance_once() {
    let mut m = NgrokManager::new();
    m.add_instance(inst("a", "tok_a", 8000)).unwrap();
    m.add_instance(inst("b", "tok_b", 8001)).unwrap();
    let plan = m.start_all();
    assert_eq!(
        plan,
        vec![
            Action::SpawnInstance { name: String::from("a") },
            Action::Wait { seconds: 3 },
            Action::SpawnInstance { name: String::from("b") },
            Action::Wait { seconds: 3 },
        ]
    );
}

#[test]
fn shutdown_kills_each_live_instance_exactly_once() {
    let mut m = NgrokManager::new();
    m.add_instance(inst("a", "tok_a", 8000)).unwrap();
    m.add_instance(inst("b", "tok_b", 8001)).unwrap();
    m.add_instance(inst("c", "tok_c", 8002)).unwrap();
    m.start_instance(&String::from("a"), Some(ProcessHandle { pid: 1 })).unwrap();
    m.start_instance(&String::from("c"), Some(ProcessHandle { pid: 3 })).unwrap();
    let acts = m.shutdown();
    assert_eq!(
        acts,
        vec![
            Action::KillProcess { name: String::from("a"), pid: 1 },
            Action::KillProcess { name: String::from("c"), pid: 3 },
        ]
    );
    assert!(!m.is_healthy(&String::from("a")));
    assert!(!m.is_healthy(&String::from("c")));
    // a second shutdown has nothing left to kill
    assert!(m.shutdown().is_empty());
}
