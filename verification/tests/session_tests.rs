use composer_core::codec::EventKind;
use composer_core::paths::EnvPaths;
use composer_core::session::{on_spawn_failure, SendStep, SessionManager};

fn test_paths() -> EnvPaths {
    EnvPaths::new("/tmp", false)
}

#[test]
fn ensure_spawns_once_then_reuses() {
    let paths = test_paths();
    let mut manager = SessionManager::new();
    assert!(!manager.has_session());

    let request = manager.ensure_step(&paths, "boot").expect("empty slot must spawn");
    assert_eq!(request.program, paths.python);
    assert_eq!(request.args, vec!["-u".to_string(), paths.main_py.clone(), "boot".to_string()]);
    assert_eq!(request.env_key, "PYTHONUNBUFFERED");
    assert_eq!(request.env_val, "1");
    assert_eq!(request.working_dir, paths.temp_dir);

    let id = manager.install(true);
    assert_eq!(id, 0);
    assert!(manager.has_session());
    assert_eq!(manager.current_session(), Some(0));

    assert!(manager.ensure_step(&paths, "boot again").is_none());
}

#[test]
fn send_writes_command_and_newline() {
    let paths = test_paths();
    let mut manager = SessionManager::new();
    manager.ensure_step(&paths, "boot");
    manager.install(true);
    match manager.send_step(&paths, "{\"text\":\"la\"}") {
        SendStep::Write { payload } => assert_eq!(payload, "{\"text\":\"la\"}\n"),
        SendStep::Respawn { .. } => panic!("usable session must be written to"),
    }
}

#[test]
fn respawn_when_channel_closed() {
    let paths = test_paths();
    let mut manager = SessionManager::new();
    manager.ensure_step(&paths, "boot");
    manager.install(false);
    match manager.send_step(&paths, "X") {
        SendStep::Write { .. } => panic!("no write may be attempted against a closed channel"),
        SendStep::Respawn { request } => {
            assert_eq!(request.args[2], "X");
            assert_eq!(request.args.len(), 3);
        },
    }
}

#[test]
fn send_without_session_respawns_with_command() {
    let paths = test_paths();
    let manager = SessionManager::new();
    match manager.send_step(&paths, "first") {
        SendStep::Write { .. } => panic!("no session to write to"),
        SendStep::Respawn { request } => assert_eq!(request.args[2], "first"),
    }
}

#[test]
fn write_failure_clears_slot_and_resubmits_command() {
    let paths = test_paths();
    let mut manager = SessionManager::new();
    manager.ensure_step(&paths, "boot");
    manager.install(true);

    let request = manager.on_write_failure(&paths, "lost command");
    assert!(!manager.has_session());
    assert_eq!(request.args[2], "lost command");

    let id = manager.install(true);
    assert_eq!(id, 1);
    assert_eq!(manager.current_session(), Some(1));
}

#[test]
fn stop_kills_then_is_noop() {
    let paths = test_paths();
    let mut manager = SessionManager::new();
    manager.ensure_step(&paths, "boot");
    manager.install(true);

    assert_eq!(manager.stop(), Some(0));
    assert!(!manager.has_session());
    assert_eq!(manager.stop(), None);
    assert_eq!(manager.stop(), None);
}

#[test]
fn spawn_failure_reports_both_ways() {
    let (error, event) = on_spawn_failure("No such file or directory");
    assert_eq!(error.message, "Failed to start Python process: No such file or directory");
    assert!(matches!(event.kind, EventKind::ErrorChannel));
    assert_eq!(event.message, error.message);
}
