use agent_bridge::bridge::BridgeSession;
use agent_bridge::bridge::CoreError;
use agent_bridge::bridge::resolve_lines;
use agent_bridge::protocol::Notification;
use agent_bridge::protocol::Step;
use agent_bridge::protocol::classify_line;

#[test]
fn terminal_classification_sequence() {
    let lines = vec![
        "{\"type\":\"status\",\"phase\":\"thinking\",\"message\":\"working\"}".to_owned(),
        "{\"type\":\"ready\"}".to_owned(),
        "{\"type\":\"answer\",\"answer\":\"42\"}".to_owned(),
    ];
    let (out, notes) = resolve_lines(&lines);
    match out {
        Ok(s) => assert_eq!(s, "42"),
        Err(_) => panic!("expected the answer to terminate the loop"),
    }
    // exactly one notification: the status line; ready produces none
    assert_eq!(notes.len(), 1);
    match &notes[0] {
        Notification::Status(s) => {
            assert_eq!(s.phase, "thinking");
            assert_eq!(s.message, "working");
            assert!(s.details.is_none());
        }
        _ => panic!("expected a status notification"),
    }
}

#[test]
fn error_first_line_terminates_with_its_text() {
    let lines = vec!["{\"type\":\"error\",\"error\":\"boom\"}".to_owned()];
    let (out, notes) = resolve_lines(&lines);
    assert_eq!(notes.len(), 0);
    match out {
        Err(CoreError::AgentError(msg)) => {
            assert_eq!(msg, "boom");
            assert_eq!(
                CoreError::AgentError(msg).message(),
                "Agent error: boom"
            );
        }
        _ => panic!("expected a worker-reported error"),
    }
}

#[test]
fn stream_closure_without_terminus() {
    let lines = vec![
        "{\"type\":\"status\",\"phase\":\"idle\",\"message\":\"\"}".to_owned(),
        "{\"type\":\"ready\"}".to_owned(),
        "plain text the worker printed".to_owned(),
        "{\"type\":\"mystery\"}".to_owned(),
    ];
    let (out, _notes) = resolve_lines(&lines);
    match out {
        Err(CoreError::NoResponseError) => {}
        _ => panic!("a stream that closes without a terminal message must fail"),
    }
}

#[test]
fn command_result_and_command_are_terminal() {
    let lines = vec!["{\"type\":\"command_result\",\"result\":\"done\"}".to_owned()];
    match resolve_lines(&lines).0 {
        Ok(s) => assert_eq!(s, "done"),
        Err(_) => panic!("command_result must succeed"),
    }
    let lines = vec!["{\"type\":\"command\",\"message\":\"cleared\"}".to_owned()];
    match resolve_lines(&lines).0 {
        Ok(s) => assert_eq!(s, "cleared"),
        Err(_) => panic!("command must succeed"),
    }
}

#[test]
fn recognized_tag_missing_its_field_is_skipped() {
    let lines = vec![
        "{\"type\":\"answer\"}".to_owned(),
        "{\"type\":\"error\"}".to_owned(),
        "{\"type\":\"answer\",\"answer\":\"second\"}".to_owned(),
    ];
    let (out, notes) = resolve_lines(&lines);
    assert_eq!(notes.len(), 0);
    match out {
        Ok(s) => assert_eq!(s, "second"),
        Err(_) => panic!("malformed lines must be tolerated, not fatal"),
    }
}

#[test]
fn delegation_lines_forward_the_raw_payload() {
    let activated = "{\"type\":\"delegation_activated\",\"wallet\":\"w1\"}".to_owned();
    let failed = "{\"type\":\"delegation_error\",\"error\":\"bad key\"}".to_owned();
    let lines = vec![
        activated.clone(),
        failed.clone(),
        "{\"type\":\"answer\",\"answer\":\"ok\"}".to_owned(),
    ];
    let (out, notes) = resolve_lines(&lines);
    assert!(out.is_ok());
    assert_eq!(notes.len(), 2);
    match &notes[0] {
        Notification::DelegationActivated(raw) => assert_eq!(*raw, activated),
        _ => panic!("expected the activation to be forwarded"),
    }
    match &notes[1] {
        Notification::DelegationError(raw) => assert_eq!(*raw, failed),
        _ => panic!("expected the delegation error to be forwarded"),
    }
}

#[test]
fn status_defaults_for_missing_fields() {
    let lines = vec![
        "{\"type\":\"status\"}".to_owned(),
        "{\"type\":\"answer\",\"answer\":\"x\"}".to_owned(),
    ];
    let (_, notes) = resolve_lines(&lines);
    assert_eq!(notes.len(), 1);
    match &notes[0] {
        Notification::Status(s) => {
            assert_eq!(s.phase, "idle");
            assert_eq!(s.message, "");
            assert!(s.details.is_none());
        }
        _ => panic!("expected a status notification"),
    }
}

#[test]
fn classify_line_on_single_lines() {
    match classify_line(&"{\"type\":\"ready\"}".to_owned()) {
        Step::Skip => {}
        _ => panic!("ready is informational"),
    }
    match classify_line(&"{\"type\":\"status\",\"phase\":\"p\",\"message\":\"m\",\"details\":\"d\"}".to_owned()) {
        Step::Notify(Notification::Status(s)) => {
            assert_eq!(s.phase, "p");
            assert_eq!(s.message, "m");
            assert_eq!(s.details, Some("d".to_owned()));
        }
        _ => panic!("expected a status notification"),
    }
    match classify_line(&"{\"type\":7}".to_owned()) {
        Step::Skip => {}
        _ => panic!("a non-string tag is skipped"),
    }
}

#[test]
fn error_messages_per_variant() {
    assert_eq!(CoreError::SpawnError.message(), "Failed to spawn agent process");
    assert_eq!(CoreError::WriteError.message(), "Failed to write query to agent");
    assert_eq!(
        CoreError::NoResponseError.message(),
        "Agent process not running or no response received"
    );
    assert_eq!(CoreError::StopError.message(), "Failed to stop agent process");
    assert_eq!(CoreError::LockError.message(), "Agent state lock poisoned");
}

#[test]
fn serialized_access_second_begin_fails() {
    let mut s = BridgeSession::new();
    assert!(s.begin());
    // a second query cannot take the exchange while the first is mid-flight
    assert!(!s.begin());
    s.finish();
    assert!(s.begin());
}
