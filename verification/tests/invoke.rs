use scanner_launcher::{open_scanner_ui, spawn_scanner_app, Command, Platform, SpawnOutcome};
use std::cell::{Cell, RefCell};

fn failed(os_error: &str) -> SpawnOutcome {
    SpawnOutcome::Failed { os_error: os_error.to_string() }
}

#[test]
fn open_scanner_ui_succeeds_when_process_is_created() {
    let reply = open_scanner_ui(Platform::Windows, |_program| SpawnOutcome::Created);
    assert_eq!(reply, Ok("opened".to_string()));
}

#[test]
fn spawn_scanner_app_succeeds_when_process_is_created() {
    let reply = spawn_scanner_app("C:\\Tools\\scan.exe".to_string(), Platform::Windows, |_program| {
        SpawnOutcome::Created
    });
    assert_eq!(reply, Ok("spawned".to_string()));
}

#[test]
fn open_scanner_ui_hands_the_panel_to_the_spawner() {
    let seen = RefCell::new(Vec::new());
    let reply = open_scanner_ui(Platform::Windows, |program| {
        seen.borrow_mut().push(program);
        SpawnOutcome::Created
    });
    assert_eq!(reply, Ok("opened".to_string()));
    assert_eq!(seen.into_inner(), vec!["wiaacmgr.exe".to_string()]);
}

#[test]
fn spawn_scanner_app_hands_the_path_to_the_spawner() {
    let seen = RefCell::new(Vec::new());
    let reply = spawn_scanner_app("D:\\scan tools\\run.exe".to_string(), Platform::Windows, |program| {
        seen.borrow_mut().push(program);
        SpawnOutcome::Created
    });
    assert_eq!(reply, Ok("spawned".to_string()));
    assert_eq!(seen.into_inner(), vec!["D:\\scan tools\\run.exe".to_string()]);
}

#[test]
fn open_scanner_ui_is_unsupported_elsewhere() {
    let calls = Cell::new(0u32);
    let reply = open_scanner_ui(Platform::Other, |_program| {
        calls.set(calls.get() + 1);
        SpawnOutcome::Created
    });
    assert_eq!(reply, Err("Scanner UI launch not supported on this OS".to_string()));
    assert_eq!(calls.get(), 0);
}

#[test]
fn spawn_scanner_app_is_unsupported_elsewhere() {
    let calls = Cell::new(0u32);
    let reply = spawn_scanner_app("/usr/bin/scanimage".to_string(), Platform::Other, |_program| {
        calls.set(calls.get() + 1);
        SpawnOutcome::Created
    });
    assert_eq!(reply, Err("Not supported on this OS".to_string()));
    assert_eq!(calls.get(), 0);
}

#[test]
fn unsupported_reply_ignores_what_the_spawner_would_report() {
    let created = open_scanner_ui(Platform::Other, |_program| SpawnOutcome::Created);
    let failing = open_scanner_ui(Platform::Other, |_program| failed("boom"));
    assert_eq!(created, failing);
    let created = spawn_scanner_app("a".to_string(), Platform::Other, |_program| SpawnOutcome::Created);
    let failing = spawn_scanner_app("a".to_string(), Platform::Other, |_program| failed("boom"));
    assert_eq!(created, failing);
}

#[test]
fn spawner_is_called_once_where_launching_is_offered() {
    let calls = Cell::new(0u32);
    let _ = open_scanner_ui(Platform::Windows, |_program| {
        calls.set(calls.get() + 1);
        SpawnOutcome::Created
    });
    assert_eq!(calls.get(), 1);
    let _ = spawn_scanner_app("a.exe".to_string(), Platform::Windows, |_program| {
        calls.set(calls.get() + 1);
        failed("nope")
    });
    assert_eq!(calls.get(), 2);
}

#[test]
fn nonexistent_path_fails_with_the_os_error_text() {
    let os_error = "The system cannot find the file specified. (os error 2)";
    let reply = spawn_scanner_app(
        "C:\\no\\such\\scanner.exe".to_string(),
        Platform::Windows,
        |_program| failed(os_error),
    );
    let text = reply.unwrap_err();
    assert!(text.contains(os_error));
    assert_eq!(
        text,
        "Failed to spawn scanner app: The system cannot find the file specified. (os error 2)"
    );
}

#[test]
fn missing_panel_fails_with_the_os_error_text() {
    let reply = open_scanner_ui(Platform::Windows, |_program| failed("program not found"));
    assert_eq!(reply, Err("Failed to open scanner UI: program not found".to_string()));
}

#[test]
fn consecutive_invocations_reply_alike() {
    for platform in [Platform::Windows, Platform::Other] {
        let first = open_scanner_ui(platform, |_program| SpawnOutcome::Created);
        let second = open_scanner_ui(platform, |_program| SpawnOutcome::Created);
        assert_eq!(first, second);
        let first = spawn_scanner_app("a.exe".to_string(), platform, |_program| failed("e"));
        let second = spawn_scanner_app("a.exe".to_string(), platform, |_program| failed("e"));
        assert_eq!(first, second);
    }
}

#[test]
fn earlier_failure_leaves_no_trace() {
    let command = Command::SpawnScannerApp { path: "a.exe".to_string() };
    let before = command.invoke(Platform::Windows, |_program| SpawnOutcome::Created);
    let _ = command.invoke(Platform::Windows, |_program| failed("e"));
    let _ = command.invoke(Platform::Other, |_program| failed("e"));
    let after = command.invoke(Platform::Windows, |_program| SpawnOutcome::Created);
    assert_eq!(before, after);
    assert_eq!(after, Ok("spawned".to_string()));
}

#[test]
fn invoke_agrees_with_plan_then_reply() {
    let commands = [Command::OpenScannerUi, Command::SpawnScannerApp { path: "b.exe".to_string() }];
    for command in commands {
        for outcome in [SpawnOutcome::Created, failed("denied")] {
            let whole = command.invoke(Platform::Windows, |_program| outcome.clone());
            assert_eq!(whole, command.reply(outcome));
        }
    }
}
