//! Tool calls: how a backend reply is decoded into one, and the texts that
//! report a tool's result back to the backend.

use crate::json::{parsed_nodes, text_at, JsonDocument, Nodes};
use crate::text::{push_signed_decimal, signed_decimal, str_eq, trim, trimmed};
use vstd::prelude::*;
use vstd::string::*;

verus! {

/// What the model asks for in place of a plain answer.
#[derive(Debug)]
pub enum ToolCall {
    /// Run a shell command.
    Exec { cmd: String },
    /// Fetch a URL.
    WebGet { url: String },
    /// The final answer.
    Final { text: String },
}

/// `ToolCall` with its texts as sequences of characters.
pub ghost enum ToolCallView {
    Exec { cmd: Seq<char> },
    WebGet { url: Seq<char> },
    Final { text: Seq<char> },
}

impl View for ToolCall {
    type V = ToolCallView;

    open spec fn view(&self) -> ToolCallView {
        match self {
            ToolCall::Exec { cmd } => ToolCallView::Exec { cmd: cmd@ },
            ToolCall::WebGet { url } => ToolCallView::WebGet { url: url@ },
            ToolCall::Final { text } => ToolCallView::Final { text: text@ },
        }
    }
}

impl DeepView for ToolCall {
    type V = ToolCallView;

    open spec fn deep_view(&self) -> ToolCallView {
        self@
    }
}

/// The tool call that a document spells: an object whose member `tool` is
/// one of `exec`, `web_get` and `final`, with the text member that belongs
/// to it (`cmd`, `url`, `text`). Other members are ignored. Any other
/// document spells none.
pub open spec fn tool_call_in(nodes: Nodes) -> Option<ToolCallView> {
    match text_at(nodes, "/tool"@) {
        Some(tool) => if tool == "exec"@ {
            match text_at(nodes, "/cmd"@) {
                Some(cmd) => Some(ToolCallView::Exec { cmd }),
                None => None,
            }
        } else if tool == "web_get"@ {
            match text_at(nodes, "/url"@) {
                Some(url) => Some(ToolCallView::WebGet { url }),
                None => None,
            }
        } else if tool == "final"@ {
            match text_at(nodes, "/text"@) {
                Some(text) => Some(ToolCallView::Final { text }),
                None => None,
            }
        } else {
            None
        },
        None => None,
    }
}

/// The tool call that a reply spells: that of its document where the whole
/// reply is one JSON document, none otherwise.
pub open spec fn tool_call_of(reply: Seq<char>) -> Option<ToolCallView> {
    match parsed_nodes(reply) {
        Some(nodes) => tool_call_in(nodes),
        None => None,
    }
}

/// Reads a tool call out of a parsed document.
pub fn tool_call_from_document(doc: &JsonDocument) -> (r: Option<ToolCall>)
    ensures
        r.deep_view() == tool_call_in(doc@),
{
    let tool = match doc.text("/tool") {
        Some(tool) => tool,
        None => { return None; },
    };
    if str_eq(tool.as_str(), "exec") {
        match doc.text("/cmd") {
            Some(cmd) => Some(ToolCall::Exec { cmd }),
            None => None,
        }
    } else if str_eq(tool.as_str(), "web_get") {
        match doc.text("/url") {
            Some(url) => Some(ToolCall::WebGet { url }),
            None => None,
        }
    } else if str_eq(tool.as_str(), "final") {
        match doc.text("/text") {
            Some(text) => Some(ToolCall::Final { text }),
            None => None,
        }
    } else {
        None
    }
}

/// Decodes a backend reply. `None` means that the reply is no tool call and
/// stands as the answer itself. The result depends on the reply alone.
pub fn decode(reply: &str) -> (r: Option<ToolCall>)
    ensures
        r.deep_view() == tool_call_of(reply@),
{
    match JsonDocument::parse(reply) {
        Some(doc) => tool_call_from_document(&doc),
        None => None,
    }
}

/// Decoding is a function of the reply: two decodings of one text give
/// the same result.
pub proof fn law_decode_repeatable(
    reply: Seq<char>,
    first: Option<ToolCallView>,
    second: Option<ToolCallView>,
)
    requires
        first == tool_call_of(reply),
        second == tool_call_of(reply),
    ensures
        first == second,
{
}

/// What a tool hands to the model: its output, or its error behind the
/// mark `[tool_error] `.
pub open spec fn tool_output_text(result: Result<Seq<char>, Seq<char>>) -> Seq<char> {
    match result {
        Ok(out) => out,
        Err(e) => "[tool_error] "@ + e,
    }
}

/// The view of a tool's result.
pub open spec fn result_view(result: Result<String, String>) -> Result<Seq<char>, Seq<char>> {
    match result {
        Ok(out) => Ok(out@),
        Err(e) => Err(e@),
    }
}

/// Turns a tool's result into the text handed to the model. A failure of
/// the tool is no failure of the send.
pub fn tool_output(result: Result<String, String>) -> (r: String)
    ensures
        r@ == tool_output_text(result_view(result)),
{
    match result {
        Ok(out) => out,
        Err(e) => {
            let mut s = String::from_str("[tool_error] ");
            s.append(e.as_str());
            s
        },
    }
}

/// The message that reports a fetched page.
pub open spec fn web_get_report(url: Seq<char>, out: Seq<char>) -> Seq<char> {
    "Tool result (web_get):\nURL: "@ + url + "\n\n"@ + out
}

/// The message that reports a command's output.
pub open spec fn exec_report(cmd: Seq<char>, out: Seq<char>) -> Seq<char> {
    "Tool result (exec):\n$ "@ + cmd + "\n\n"@ + out
}

/// The message that refuses a command while unrestricted execution is off.
pub open spec fn exec_denied_text() -> Seq<char> {
    "Tool denied: exec is disabled (Developer Mode off). Return a final answer without exec."@
}

/// The log entry of a command that ran.
pub open spec fn exec_log_text(cwd: Seq<char>, cmd: Seq<char>, out: Seq<char>) -> Seq<char> {
    "exec (cwd="@ + cwd + "):\n$ "@ + cmd + "\n\n"@ + out
}

/// The message that reports a fetched page.
pub fn web_get_message(url: &str, out: &str) -> (r: String)
    ensures
        r@ == web_get_report(url@, out@),
{
    let mut s = String::from_str("Tool result (web_get):\nURL: ");
    s.append(url);
    s.append("\n\n");
    s.append(out);
    s
}

/// The message that reports a command's output.
pub fn exec_message(cmd: &str, out: &str) -> (r: String)
    ensures
        r@ == exec_report(cmd@, out@),
{
    let mut s = String::from_str("Tool result (exec):\n$ ");
    s.append(cmd);
    s.append("\n\n");
    s.append(out);
    s
}

/// The message that refuses a command while unrestricted execution is off.
pub fn exec_denied_message() -> (r: String)
    ensures
        r@ == exec_denied_text(),
{
    String::from_str(
        "Tool denied: exec is disabled (Developer Mode off). Return a final answer without exec.",
    )
}

/// The log entry of a command that ran.
pub fn exec_log_message(cwd: &str, cmd: &str, out: &str) -> (r: String)
    ensures
        r@ == exec_log_text(cwd@, cmd@, out@),
{
    let mut s = String::from_str("exec (cwd=");
    s.append(cwd);
    s.append("):\n$ ");
    s.append(cmd);
    s.append("\n\n");
    s.append(out);
    s
}

/// How an exit code is shown in an error: `Some(1)`, or `None` where the
/// process was ended by a signal.
pub open spec fn exit_code_text(code: Option<i32>) -> Seq<char> {
    match code {
        Some(c) => "Some("@ + signed_decimal(c as int) + ")"@,
        None => "None"@,
    }
}

/// What a finished shell command yields: its standard output where it
/// succeeded, else an error that names the exit code and the trimmed
/// standard error.
pub open spec fn exec_result(
    success: bool,
    code: Option<i32>,
    stdout: Seq<char>,
    stderr: Seq<char>,
) -> Result<Seq<char>, Seq<char>> {
    if success {
        Ok(stdout)
    } else {
        Err("exec failed (code "@ + exit_code_text(code) + "): "@ + trimmed(stderr))
    }
}

/// Judges a finished shell command.
pub fn exec(success: bool, code: Option<i32>, stdout: String, stderr: &str) -> (r: Result<
    String,
    String,
>)
    ensures
        result_view(r) == exec_result(success, code, stdout@, stderr@),
{
    if success {
        Ok(stdout)
    } else {
        let mut s = String::from_str("exec failed (code ");
        match code {
            Some(c) => {
                s.append("Some(");
                push_signed_decimal(&mut s, c as i64);
                s.append(")");
                assert(s@ =~= "exec failed (code "@ + exit_code_text(code));
            },
            None => {
                s.append("None");
            },
        }
        s.append("): ");
        let t = trim(stderr);
        s.append(t.as_str());
        Err(s)
    }
}

/// What a fetched page yields: its body where the status is a success,
/// else an error that names the status and the body.
pub open spec fn web_get_result(success: bool, status: Seq<char>, body: Seq<char>) -> Result<
    Seq<char>,
    Seq<char>,
> {
    if success {
        Ok(body)
    } else {
        Err("web_get "@ + status + ": "@ + body)
    }
}

/// Judges a fetched page. `status` is the status line as it is shown, such
/// as `404 Not Found`.
pub fn web_get(success: bool, status: &str, body: String) -> (r: Result<String, String>)
    ensures
        result_view(r) == web_get_result(success, status@, body@),
{
    if success {
        Ok(body)
    } else {
        let mut s = String::from_str("web_get ");
        s.append(status);
        s.append(": ");
        s.append(body.as_str());
        Err(s)
    }
}

} // verus!
