use openclaw_desktop::chats::{ChatRole, ChatThread};
use openclaw_desktop::ollama::{
    chat, chat_stream, chat_url, stream_line, OllamaError, OllamaMessage, OllamaRole, ReadStep,
    StreamLine,
};
use openclaw_desktop::prompt::{
    base_msgs_for_thread, is_action_request, mentions_action, strip_ollama_prefix, system_prompt,
};

const FORCING: &str = "AUTO-DO: This is an action request. Reply with a single tool JSON (exec/web_get) to actually do the work. Do not answer with a plan.";

fn thread_of(messages: &[(ChatRole, &str)]) -> ChatThread {
    let mut t = ChatThread::new("c_1".to_string());
    for (i, (role, text)) in messages.iter().enumerate() {
        t.push_message(format!("m_{}", i), *role, text.to_string(), i as i64);
    }
    t
}

fn summary(msgs: &[OllamaMessage]) -> Vec<(OllamaRole, String)> {
    msgs.iter().map(|m| (m.role, m.content.clone())).collect()
}

#[test]
fn chat_url_drops_trailing_slashes() {
    assert_eq!(chat_url("http://localhost:11434"), "http://localhost:11434/api/chat");
    assert_eq!(chat_url("http://localhost:11434/"), "http://localhost:11434/api/chat");
    assert_eq!(chat_url("http://h///"), "http://h/api/chat");
    assert_eq!(chat_url(""), "/api/chat");
}

#[test]
fn role_names_are_lower_case() {
    assert_eq!(ChatRole::User.name(), "user");
    assert_eq!(ChatRole::Assistant.name(), "assistant");
    assert_eq!(ChatRole::Tool.name(), "tool");
}

#[test]
fn chat_reads_the_message_of_an_answer() {
    let r = chat(true, "200 OK", "{\"model\":\"m\",\"message\":{\"role\":\"assistant\",\"content\":\"hi there\"},\"done\":true}");
    match r {
        Ok(resp) => {
            assert_eq!(resp.message.role, OllamaRole::Assistant);
            assert_eq!(resp.message.content, "hi there");
        }
        Err(e) => panic!("unexpected {:?}", e),
    }
}

#[test]
fn chat_reports_status_and_bad_documents() {
    match chat(false, "500 Internal Server Error", "oops") {
        Err(e) => {
            assert!(matches!(e, OllamaError::Status { .. }));
            assert_eq!(e.message(), "ollama error 500 Internal Server Error: oops");
        }
        Ok(_) => panic!("expected an error"),
    }
    for body in [
        "not json",
        "{}",
        "{\"message\":null}",
        "{\"message\":{\"role\":\"assistant\"}}",
        "{\"message\":{\"role\":\"robot\",\"content\":\"x\"}}",
        "{\"message\":{\"role\":\"assistant\",\"content\":7}}",
        "[]",
    ] {
        match chat(true, "200 OK", body) {
            Err(e) => {
                assert!(matches!(e, OllamaError::BadResponse));
                assert_eq!(e.message(), "failed to parse ollama response");
            }
            Ok(_) => panic!("expected an error for {}", body),
        }
    }
}

#[test]
fn stream_line_reads_chunks() {
    match stream_line("{\"message\":{\"role\":\"assistant\",\"content\":\"H\"},\"done\":false}\n") {
        StreamLine::Chunk { delta, done } => {
            assert_eq!(delta, "H");
            assert!(!done);
        }
        other => panic!("unexpected {:?}", other),
    }
    match stream_line("{\"message\":{\"role\":\"assistant\",\"content\":\"\"},\"done\":true}") {
        StreamLine::Chunk { delta, done } => {
            assert_eq!(delta, "");
            assert!(done);
        }
        other => panic!("unexpected {:?}", other),
    }
    match stream_line("{\"done\":true}") {
        StreamLine::Chunk { delta, done } => {
            assert_eq!(delta, "");
            assert!(done);
        }
        other => panic!("unexpected {:?}", other),
    }
    match stream_line("{\"message\":{\"role\":\"assistant\",\"content\":\"x\"}}") {
        StreamLine::Chunk { delta, done } => {
            assert_eq!(delta, "x");
            assert!(!done);
        }
        other => panic!("unexpected {:?}", other),
    }
}

#[test]
fn stream_line_skips_and_rejects() {
    assert!(matches!(stream_line(""), StreamLine::Skip));
    assert!(matches!(stream_line("   \r\n"), StreamLine::Skip));
    assert!(matches!(stream_line("{}"), StreamLine::Skip));
    assert!(matches!(stream_line("{\"done\":false}"), StreamLine::Skip));
    assert!(matches!(stream_line("{\"message\":null,\"done\":null}"), StreamLine::Skip));
    assert!(matches!(
        stream_line("{\"message\":{\"role\":\"assistant\",\"content\":\"\"}}"),
        StreamLine::Skip
    ));
    assert!(matches!(stream_line("garbage"), StreamLine::Invalid));
    assert!(matches!(stream_line("{\"done\":\"yes\"}"), StreamLine::Invalid));
    assert!(matches!(stream_line("{\"message\":\"text\"}"), StreamLine::Invalid));
    assert!(matches!(stream_line("{\"message\":{\"content\":\"x\"}}"), StreamLine::Invalid));
    assert!(matches!(stream_line("[]"), StreamLine::Invalid));
    assert!(matches!(stream_line("7"), StreamLine::Invalid));
}

#[test]
fn strip_ollama_prefix_removes_the_provider() {
    assert_eq!(strip_ollama_prefix("ollama/huihui_ai/qwen3-abliterated:8b"), "huihui_ai/qwen3-abliterated:8b");
    assert_eq!(strip_ollama_prefix("llama3"), "llama3");
}

#[test]
fn system_prompt_has_its_four_forms() {
    let intro = "You are OpenClaw Desktop running locally. You can call tools when needed.\n\n";
    let auto = "AUTO-DO MODE: Enabled. For action requests, you MUST use tools (exec/web_get) rather than giving plans.\nIf you claim you did something, it must be backed by tool output.\n\n";
    let tools = "TOOL CALLS:\nWhen responding, you may return a single JSON object matching one of these shapes (no extra text):\n- {\"tool\":\"web_get\",\"url\":\"https://example.com\"}\n- {\"tool\":\"exec\",\"cmd\":\"<shell command>\"}\n- {\"tool\":\"final\",\"text\":\"<final answer>\"}\n\n";
    let full = "EXEC MODE: FULL EXEC AUTO is ENABLED. You may run any shell command you deem necessary. Be careful and prefer read-only commands.\n";
    let restricted = "EXEC MODE: restricted. Prefer web_get; avoid exec unless explicitly requested.\n";
    assert_eq!(system_prompt(false, false), format!("{}{}{}", intro, tools, restricted));
    assert_eq!(system_prompt(true, false), format!("{}{}{}", intro, tools, full));
    assert_eq!(system_prompt(false, true), format!("{}{}{}{}", intro, auto, tools, restricted));
    assert_eq!(system_prompt(true, true), format!("{}{}{}{}", intro, auto, tools, full));
}

#[test]
fn action_requests_are_recognised() {
    assert!(is_action_request("please install the package"));
    assert!(!is_action_request("what is the weather"));
    assert!(is_action_request("PLEASE INSTALL IT"));
    assert!(is_action_request("Do It now"));
    assert!(is_action_request("get it done"));
    assert!(is_action_request("can you fix this"));
    assert!(is_action_request("set up the repo"));
    assert!(is_action_request("setup"));
    assert!(is_action_request("execute order"));
    assert!(is_action_request("create a file"));
    assert!(is_action_request("delete that"));
    assert!(is_action_request("remove it"));
    assert!(is_action_request("update deps"));
    assert!(is_action_request("build it"));
    assert!(is_action_request("deploy to prod"));
    assert!(is_action_request("a trunk"));
    assert!(!is_action_request(""));
    assert!(!is_action_request("hello there"));
}

#[test]
fn mentions_action_expects_lower_case() {
    assert!(mentions_action("please install"));
    assert!(!mentions_action("PLEASE INSTALL"));
}

#[test]
fn auto_act_appends_the_forcing_instruction() {
    let t = thread_of(&[(ChatRole::User, "please install the package")]);
    let msgs = base_msgs_for_thread(false, true, &t, 16);
    let s = summary(&msgs);
    assert_eq!(s.len(), 3);
    assert_eq!(s[0], (OllamaRole::System, system_prompt(false, true)));
    assert_eq!(s[1], (OllamaRole::User, "please install the package".to_string()));
    assert_eq!(s[2], (OllamaRole::User, FORCING.to_string()));
}

#[test]
fn no_forcing_instruction_without_an_action_request() {
    let t = thread_of(&[(ChatRole::User, "what is the weather")]);
    let s = summary(&base_msgs_for_thread(false, true, &t, 16));
    assert_eq!(s.len(), 2);
    assert_eq!(s[1], (OllamaRole::User, "what is the weather".to_string()));
}

#[test]
fn no_forcing_instruction_while_auto_act_is_off() {
    let t = thread_of(&[(ChatRole::User, "please install the package")]);
    let s = summary(&base_msgs_for_thread(true, false, &t, 16));
    assert_eq!(s.len(), 2);
    assert_eq!(s[0], (OllamaRole::System, system_prompt(true, false)));
}

#[test]
fn forcing_looks_at_the_newest_user_message() {
    let t = thread_of(&[
        (ChatRole::User, "please install the package"),
        (ChatRole::Assistant, "ok"),
        (ChatRole::User, "thanks"),
        (ChatRole::Assistant, ""),
    ]);
    let s = summary(&base_msgs_for_thread(false, true, &t, 16));
    assert_eq!(s.len(), 5);
    let t = thread_of(&[
        (ChatRole::User, "hello"),
        (ChatRole::User, "deploy it"),
        (ChatRole::Tool, "exec output"),
        (ChatRole::Assistant, ""),
    ]);
    let s = summary(&base_msgs_for_thread(false, true, &t, 16));
    assert_eq!(s.len(), 6);
    assert_eq!(s[3], (OllamaRole::User, "exec output".to_string()));
    assert_eq!(s[4], (OllamaRole::Assistant, "".to_string()));
    assert_eq!(s[5], (OllamaRole::User, FORCING.to_string()));
}

#[test]
fn only_the_most_recent_messages_are_sent() {
    let texts: Vec<String> = (0..20).map(|i| format!("msg {}", i)).collect();
    let pairs: Vec<(ChatRole, &str)> = texts
        .iter()
        .enumerate()
        .map(|(i, t)| (if i % 2 == 0 { ChatRole::User } else { ChatRole::Assistant }, t.as_str()))
        .collect();
    let t = thread_of(&pairs);
    let s = summary(&base_msgs_for_thread(false, false, &t, 16));
    assert_eq!(s.len(), 17);
    assert_eq!(s[1], (OllamaRole::User, "msg 4".to_string()));
    assert_eq!(s[16], (OllamaRole::Assistant, "msg 19".to_string()));
    let s = summary(&base_msgs_for_thread(false, false, &t, 0));
    assert_eq!(s.len(), 1);
    let s = summary(&base_msgs_for_thread(false, false, &t, 100));
    assert_eq!(s.len(), 21);
    let empty = thread_of(&[]);
    assert_eq!(summary(&base_msgs_for_thread(false, true, &empty, 16)).len(), 1);
}

#[test]
fn streamed_answer_is_refused_on_a_bad_status() {
    assert!(chat_stream(true, "200 OK", String::new()).is_ok());
    match chat_stream(false, "404 Not Found", "model missing".to_string()) {
        Err(e) => assert_eq!(e.message(), "ollama error 404 Not Found: model missing"),
        Ok(_) => panic!("expected an error"),
    }
}

fn deliveries(lines: &[&str]) -> Vec<String> {
    let mut reader = chat_stream(true, "200 OK", String::new()).unwrap();
    lines.iter().map(|l| format!("{:?}", reader.line(l))).collect()
}

#[test]
fn reader_delivers_up_to_the_end_mark() {
    let mut reader = chat_stream(true, "200 OK", String::new()).unwrap();
    assert!(!reader.is_ended());
    match reader.line("{\"message\":{\"role\":\"assistant\",\"content\":\"H\"},\"done\":false}") {
        ReadStep::Deliver { delta, done } => {
            assert_eq!(delta, "H");
            assert!(!done);
        }
        other => panic!("unexpected {:?}", other),
    }
    assert!(matches!(reader.line(""), ReadStep::Skip));
    assert!(matches!(reader.line("\n"), ReadStep::Skip));
    assert!(matches!(
        reader.line("{\"message\":{\"role\":\"assistant\",\"content\":\"\"}}"),
        ReadStep::Skip
    ));
    assert!(!reader.is_ended());
    match reader.line("{\"done\":true}") {
        ReadStep::Deliver { delta, done } => {
            assert_eq!(delta, "");
            assert!(done);
        }
        other => panic!("unexpected {:?}", other),
    }
    assert!(reader.is_ended());
    assert!(matches!(
        reader.line("{\"message\":{\"role\":\"assistant\",\"content\":\"x\"}}"),
        ReadStep::Stop
    ));
    assert!(matches!(reader.line("garbage"), ReadStep::Stop));
    assert!(reader.is_ended());
}

#[test]
fn reader_fails_on_a_bad_line_and_reads_no_more() {
    let mut reader = chat_stream(true, "200 OK", String::new()).unwrap();
    assert!(matches!(
        reader.line("{\"message\":{\"role\":\"assistant\",\"content\":\"a\"}}"),
        ReadStep::Deliver { .. }
    ));
    match reader.line("not json") {
        ReadStep::Fail { error } => {
            assert!(matches!(error, OllamaError::BadStreamLine));
            assert_eq!(error.message(), "failed to parse ollama stream json");
        }
        other => panic!("unexpected {:?}", other),
    }
    assert!(reader.is_ended());
    assert!(matches!(reader.line("{\"done\":true}"), ReadStep::Stop));
}

#[test]
fn reader_without_end_mark_stays_open() {
    let steps = deliveries(&["{\"message\":{\"role\":\"assistant\",\"content\":\"a\"}}", "", "{}"]);
    assert_eq!(steps.len(), 3);
    assert!(steps[0].starts_with("Deliver"));
    assert_eq!(steps[1], "Skip");
    assert_eq!(steps[2], "Skip");
    let mut reader = chat_stream(true, "200 OK", String::new()).unwrap();
    reader.line("{}");
    assert!(!reader.is_ended());
}
