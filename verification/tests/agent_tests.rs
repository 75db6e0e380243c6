use openclaw_desktop::agent::{
    agent_args, agent_in_document, agent_text_from_document, agents_add_args, agents_list_args,
    ensure_desktop_agent, is_retryable, AgentAction, AgentError, AgentRun, MAX_ATTEMPTS,
    RETRY_DELAY_MS,
};
use openclaw_desktop::desktop_agent::{
    default_agent_id, ensure_minimal_workspace, workspace_profile_id,
};
use openclaw_desktop::json::JsonDocument;

const LOCKED: &str = "Error: session file locked by another process";

#[test]
fn agent_args_have_the_fixed_shape() {
    let args = agent_args("ocd-p-1", "desktop-c_1", "hello", Some("low"), Some("main"));
    assert_eq!(
        args,
        vec![
            "--profile", "ocd-p-1", "agent", "--local", "--session-id", "desktop-c_1",
            "--message", "hello", "--json", "--channel", "last", "--timeout", "120",
            "--thinking", "low", "--agent", "main",
        ]
    );
    let args = agent_args("ocd-p-1", "s", "m", None, None);
    assert_eq!(
        args,
        vec![
            "--profile", "ocd-p-1", "agent", "--local", "--session-id", "s", "--message", "m",
            "--json", "--channel", "last", "--timeout", "120", "--agent", "desktop-ocd-p-1",
        ]
    );
}

#[test]
fn default_agent_id_is_safe() {
    assert_eq!(default_agent_id("ocd-p-17"), "desktop-ocd-p-17");
    assert_eq!(default_agent_id("my profile_é"), "desktop-my-profile--");
    assert_eq!(default_agent_id(""), "desktop-");
}

#[test]
fn workspace_keeps_to_its_own_profile() {
    assert_eq!(workspace_profile_id("ocd-p-17"), "p_p-17");
    assert_eq!(workspace_profile_id("custom"), "custom");
    let files = ensure_minimal_workspace();
    let names: Vec<&str> = files.iter().map(|f| f.name.as_str()).collect();
    assert_eq!(names, vec!["SOUL.md", "USER.md", "MEMORY.md", "AGENTS.md"]);
    assert_eq!(files[0].content, "# SOUL\n\nYou are OpenClaw Desktop (local-first). Be direct, concise, and helpful.\n");
    assert_eq!(files[2].content, "# MEMORY\n\n(Desktop profile memory)\n");
    assert_eq!(files[3].content, "# AGENTS\n\nThis is the OpenClaw Desktop workspace. Prefer small context.\n");
    assert!(files[1].content.starts_with("# USER\n\n"));
}

#[test]
fn agents_commands() {
    assert_eq!(agents_list_args("ocd-x"), vec!["--profile", "ocd-x", "agents", "list", "--json"]);
    assert_eq!(
        agents_add_args("ocd-x", "/ws", "ollama/m", "desktop-x"),
        vec![
            "--profile", "ocd-x", "agents", "add", "--non-interactive", "--workspace", "/ws",
            "--model", "ollama/m", "desktop-x",
        ]
    );
}

#[test]
fn listed_agent_needs_no_add() {
    let listing = "{\"agents\":[{\"id\":\"main\"},{\"id\":\"desktop-x\",\"name\":\"d\"}]}";
    assert!(ensure_desktop_agent(true, listing, "ocd-x", "/ws", "desktop-x", "m").is_none());
    assert!(ensure_desktop_agent(true, listing, "ocd-x", "/ws", "main", "m").is_none());
    let add = ensure_desktop_agent(true, listing, "ocd-x", "/ws", "other", "m").unwrap();
    assert_eq!(add, agents_add_args("ocd-x", "/ws", "m", "other"));
    assert!(ensure_desktop_agent(false, listing, "ocd-x", "/ws", "main", "m").is_some());
    assert!(ensure_desktop_agent(true, "garbage", "ocd-x", "/ws", "main", "m").is_some());
    assert!(ensure_desktop_agent(true, "{\"agents\":[]}", "ocd-x", "/ws", "main", "m").is_some());
    assert!(ensure_desktop_agent(true, "{}", "ocd-x", "/ws", "main", "m").is_some());
    assert!(ensure_desktop_agent(true, "{\"agents\":[{\"id\":\"main\"},{\"id\":5}]}", "ocd-x", "/ws", "main", "m").is_some());
    assert!(ensure_desktop_agent(true, "{\"agents\":[{\"id\":\"main\"},7]}", "ocd-x", "/ws", "main", "m").is_some());
}

#[test]
fn agent_in_document_scans_long_lists() {
    let mut items: Vec<String> = (0..25).map(|i| format!("{{\"id\":\"a{}\"}}", i)).collect();
    items.push("{\"id\":\"needle\"}".to_string());
    let listing = format!("{{\"agents\":[{}]}}", items.join(","));
    let doc = JsonDocument::parse(&listing).unwrap();
    assert!(agent_in_document(&doc, "needle"));
    assert!(agent_in_document(&doc, "a0"));
    assert!(agent_in_document(&doc, "a24"));
    assert!(!agent_in_document(&doc, "a25"));
}

#[test]
fn envelope_yields_the_first_text() {
    let text = |s: &str| JsonDocument::parse(s).and_then(|d| agent_text_from_document(&d));
    assert_eq!(text("{\"result\":{\"payloads\":[{\"text\":\"one\"},{\"text\":\"two\"}]}}"), Some("one".to_string()));
    assert_eq!(text("{\"result\":{\"payloads\":[{},{\"text\":null},{\"text\":\"three\"}]}}"), Some("three".to_string()));
    assert_eq!(text("{\"result\":{\"payloads\":[]}}"), Some("(no text payload)".to_string()));
    assert_eq!(text("{\"result\":{\"payloads\":[{}]}}"), Some("(no text payload)".to_string()));
    assert_eq!(text("{\"result\":null}"), Some("(no text payload)".to_string()));
    assert_eq!(text("{}"), Some("(no text payload)".to_string()));
    assert_eq!(text("{\"result\":{}}"), None);
    assert_eq!(text("{\"result\":{\"payloads\":{}}}"), None);
    assert_eq!(text("{\"result\":7}"), None);
    assert_eq!(text("{\"result\":{\"payloads\":[{\"text\":\"one\"},{\"text\":5}]}}"), None);
    assert_eq!(text("{\"result\":{\"payloads\":[{\"text\":\"one\"},\"two\"]}}"), None);
    assert_eq!(text("[]"), None);
    let many: Vec<String> = (0..12).map(|i| if i == 11 { "{\"text\":\"last\"}".to_string() } else { "{}".to_string() }).collect();
    assert_eq!(text(&format!("{{\"result\":{{\"payloads\":[{}]}}}}", many.join(","))), Some("last".to_string()));
}

#[test]
fn stale_lock_is_retryable() {
    assert!(is_retryable(LOCKED));
    assert!(is_retryable("session file locked"));
    assert!(!is_retryable("Session File Locked"));
    assert!(!is_retryable("model not found"));
    assert!(!is_retryable(""));
}

#[test]
fn third_attempt_succeeds_after_two_stale_locks() {
    let mut run = AgentRun::new();
    assert_eq!(run.attempts(), 0);
    assert!(matches!(run.start(), AgentAction::Call));
    assert_eq!(run.attempts(), 1);
    match run.exited(false, "", LOCKED.to_string()) {
        AgentAction::Retry { delay_ms } => assert_eq!(delay_ms, 650),
        other => panic!("unexpected {:?}", other),
    }
    assert_eq!(run.attempts(), 2);
    assert!(matches!(run.exited(false, "", LOCKED.to_string()), AgentAction::Retry { delay_ms: 650 }));
    assert_eq!(run.attempts(), 3);
    match run.exited(true, "{\"result\":{\"payloads\":[{\"text\":\"hi\"}]}}", String::new()) {
        AgentAction::Answer { text } => assert_eq!(text, "hi"),
        other => panic!("unexpected {:?}", other),
    }
    assert_eq!(run.attempts(), 3);
    assert_eq!(RETRY_DELAY_MS, 650);
    assert_eq!(MAX_ATTEMPTS, 3);
    assert!(matches!(run.exited(true, "{}", String::new()), AgentAction::Fail { error: AgentError::OutOfTurn }));
}

#[test]
fn third_stale_lock_is_fatal() {
    let mut run = AgentRun::new();
    run.start();
    run.exited(false, "", LOCKED.to_string());
    run.exited(false, "", LOCKED.to_string());
    match run.exited(false, "", LOCKED.to_string()) {
        AgentAction::Fail { error } => {
            assert!(matches!(error, AgentError::Failed { .. }));
            assert_eq!(error.message(), LOCKED);
        }
        other => panic!("unexpected {:?}", other),
    }
    assert_eq!(run.attempts(), 3);
}

#[test]
fn other_failures_are_not_retried() {
    let mut run = AgentRun::new();
    run.start();
    match run.exited(false, "ignored", "model not found".to_string()) {
        AgentAction::Fail { error } => assert_eq!(error.message(), "model not found"),
        other => panic!("unexpected {:?}", other),
    }
    assert_eq!(run.attempts(), 1);

    let mut run = AgentRun::new();
    run.start();
    match run.spawn_failed() {
        AgentAction::Fail { error } => {
            assert!(matches!(error, AgentError::Spawn));
            assert_eq!(error.message(), "failed to run openclaw agent");
        }
        other => panic!("unexpected {:?}", other),
    }

    let mut run = AgentRun::new();
    run.start();
    match run.exited(true, "not json", String::new()) {
        AgentAction::Fail { error } => {
            assert!(matches!(error, AgentError::BadJson));
            assert_eq!(error.message(), "failed to parse agent JSON");
        }
        other => panic!("unexpected {:?}", other),
    }
}

#[test]
fn agent_run_out_of_turn() {
    let mut run = AgentRun::new();
    assert!(matches!(run.exited(true, "{}", String::new()), AgentAction::Fail { error: AgentError::OutOfTurn }));
    assert!(matches!(run.spawn_failed(), AgentAction::Fail { error: AgentError::OutOfTurn }));
    run.start();
    assert!(matches!(run.start(), AgentAction::Fail { error: AgentError::OutOfTurn }));
    assert_eq!(AgentError::OutOfTurn.message(), "agent run out of turn");
    match run.exited_with(true, Some("given".to_string()), String::new()) {
        AgentAction::Answer { text } => assert_eq!(text, "given"),
        other => panic!("unexpected {:?}", other),
    }
}
