use openclaw_desktop::json::{JsonDocument, JsonNode};
use openclaw_desktop::tools::{
    decode, exec, exec_denied_message, exec_log_message, exec_message, tool_call_from_document,
    tool_output, web_get, web_get_message, ToolCall,
};

#[test]
fn decode_reads_the_three_tool_calls() {
    match decode("{\"tool\":\"exec\",\"cmd\":\"ls -la\"}") {
        Some(ToolCall::Exec { cmd }) => assert_eq!(cmd, "ls -la"),
        other => panic!("unexpected {:?}", other),
    }
    match decode("{\"tool\":\"web_get\",\"url\":\"https://example.com\"}") {
        Some(ToolCall::WebGet { url }) => assert_eq!(url, "https://example.com"),
        other => panic!("unexpected {:?}", other),
    }
    match decode("  {\"text\":\"done\\n\", \"tool\":\"final\", \"extra\": [1, 2]}  ") {
        Some(ToolCall::Final { text }) => assert_eq!(text, "done\n"),
        other => panic!("unexpected {:?}", other),
    }
}

#[test]
fn decode_falls_back_on_anything_else() {
    assert!(decode("hi there").is_none());
    assert!(decode("").is_none());
    assert!(decode("{\"tool\":\"exec\"}").is_none());
    assert!(decode("{\"tool\":\"exec\",\"cmd\":5}").is_none());
    assert!(decode("{\"tool\":\"exec\",\"url\":\"x\"}").is_none());
    assert!(decode("{\"tool\":\"shell\",\"cmd\":\"ls\"}").is_none());
    assert!(decode("{\"tool\":\"Exec\",\"cmd\":\"ls\"}").is_none());
    assert!(decode("{\"cmd\":\"ls\"}").is_none());
    assert!(decode("{\"tool\":null,\"cmd\":\"ls\"}").is_none());
    assert!(decode("[1,2,3]").is_none());
    assert!(decode("\"final\"").is_none());
    assert!(decode("42").is_none());
    assert!(decode("{\"tool\":\"final\",\"text\":\"x\"} trailing").is_none());
    assert!(decode("Sure! {\"tool\":\"final\",\"text\":\"x\"}").is_none());
}

#[test]
fn decode_twice_gives_the_same_variant() {
    for reply in ["{\"tool\":\"exec\",\"cmd\":\"ls\"}", "plain", "{\"tool\":\"final\",\"text\":\"a\"}", "{"] {
        let first = format!("{:?}", decode(reply));
        let second = format!("{:?}", decode(reply));
        assert_eq!(first, second);
    }
}

#[test]
fn document_nodes_are_found_by_pointer() {
    let doc = JsonDocument::parse("{\"a\":{\"b\":[true,null,\"x\",1.5,{}]},\"n\":null}").unwrap();
    assert!(matches!(doc.node(""), Some(JsonNode::Object)));
    assert!(matches!(doc.node("/a"), Some(JsonNode::Object)));
    assert!(matches!(doc.node("/a/b"), Some(JsonNode::Array(5))));
    assert!(matches!(doc.node("/a/b/0"), Some(JsonNode::Bool(true))));
    assert!(matches!(doc.node("/a/b/1"), Some(JsonNode::Null)));
    match doc.node("/a/b/2") {
        Some(JsonNode::Text(t)) => assert_eq!(t, "x"),
        other => panic!("unexpected {:?}", other),
    }
    assert!(matches!(doc.node("/a/b/3"), Some(JsonNode::Number)));
    assert!(matches!(doc.node("/a/b/4"), Some(JsonNode::Object)));
    assert!(doc.node("/a/b/5").is_none());
    assert!(doc.node("/missing").is_none());
    assert!(doc.node("a").is_none());
    assert_eq!(doc.text("/a/b/2"), Some("x".to_string()));
    assert_eq!(doc.text("/a/b/0"), None);
    assert_eq!(doc.boolean("/a/b/0"), Some(true));
    assert_eq!(doc.boolean("/a/b/2"), None);
    assert_eq!(doc.array_len("/a/b"), Some(5));
    assert_eq!(doc.array_len("/a"), None);
    assert!(doc.is_object("/a"));
    assert!(!doc.is_object("/a/b"));
    assert!(doc.is_absent("/n"));
    assert!(doc.is_absent("/zzz"));
    assert!(!doc.is_absent("/a"));
}

#[test]
fn parse_rejects_what_is_no_document() {
    assert!(JsonDocument::parse("").is_none());
    assert!(JsonDocument::parse("{").is_none());
    assert!(JsonDocument::parse("{} {}").is_none());
    assert!(JsonDocument::parse("nope").is_none());
    assert!(JsonDocument::parse(" [] ").is_some());
}

#[test]
fn tool_call_from_document_reads_parsed_documents() {
    let doc = JsonDocument::parse("{\"tool\":\"web_get\",\"url\":\"u\",\"cmd\":\"c\"}").unwrap();
    match tool_call_from_document(&doc) {
        Some(ToolCall::WebGet { url }) => assert_eq!(url, "u"),
        other => panic!("unexpected {:?}", other),
    }
    let doc = JsonDocument::parse("[\"exec\",\"ls\"]").unwrap();
    assert!(tool_call_from_document(&doc).is_none());
}

#[test]
fn tool_reports_have_their_exact_texts() {
    assert_eq!(
        web_get_message("https://e.com", "<html>"),
        "Tool result (web_get):\nURL: https://e.com\n\n<html>"
    );
    assert_eq!(exec_message("ls", "a\nb\n"), "Tool result (exec):\n$ ls\n\na\nb\n");
    assert_eq!(
        exec_denied_message(),
        "Tool denied: exec is disabled (Developer Mode off). Return a final answer without exec."
    );
    assert_eq!(exec_log_message("/tmp/p", "ls", "out"), "exec (cwd=/tmp/p):\n$ ls\n\nout");
}

#[test]
fn tool_output_marks_errors() {
    assert_eq!(tool_output(Ok("fine".to_string())), "fine");
    assert_eq!(tool_output(Err("boom".to_string())), "[tool_error] boom");
    assert_eq!(tool_output(Err(String::new())), "[tool_error] ");
}

#[test]
fn exec_judges_a_finished_command() {
    assert_eq!(exec(true, Some(0), "out".to_string(), "warn"), Ok("out".to_string()));
    assert_eq!(
        exec(false, Some(2), "out".to_string(), "  no such file \n"),
        Err("exec failed (code Some(2)): no such file".to_string())
    );
    assert_eq!(
        exec(false, None, String::new(), "killed"),
        Err("exec failed (code None): killed".to_string())
    );
    assert_eq!(
        exec(false, Some(-1), String::new(), ""),
        Err("exec failed (code Some(-1)): ".to_string())
    );
}

#[test]
fn web_get_judges_a_fetched_page() {
    assert_eq!(web_get(true, "200 OK", "body".to_string()), Ok("body".to_string()));
    assert_eq!(
        web_get(false, "404 Not Found", "gone".to_string()),
        Err("web_get 404 Not Found: gone".to_string())
    );
}
