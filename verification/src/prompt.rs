//! What is sent to the chat backend for a conversation: the system prompt,
//! the recent messages of the log, and the instruction that forces a tool
//! call when the user asks for an action.

use crate::chats::{newest_user_text, ChatMessageView, ChatRole, ChatThread};
use crate::ollama::{OllamaMessage, OllamaMessageView, OllamaRole};
use crate::text::{contains, is_substring, lowercase, strip_prefix, to_lowercase, without_prefix};
use vstd::prelude::*;
use vstd::string::*;

verus! {

/// How many messages of the log are sent to the backend.
pub const RECENT_MESSAGES: usize = 16;

/// The model's name without the provider prefix `ollama/`.
pub fn strip_ollama_prefix(model_id: &str) -> (r: String)
    ensures
        r@ == without_prefix(model_id@, "ollama/"@),
{
    strip_prefix(model_id, "ollama/")
}

/// The opening of the system prompt.
pub open spec fn prompt_intro() -> Seq<char> {
    "You are OpenClaw Desktop running locally. You can call tools when needed.\n\n"@
}

/// The part of the system prompt that is there in auto-act mode.
pub open spec fn prompt_auto_act() -> Seq<char> {
    "AUTO-DO MODE: Enabled. For action requests, you MUST use tools (exec/web_get) rather than giving plans.\n"@
        + "If you claim you did something, it must be backed by tool output.\n\n"@
}

/// The part of the system prompt that lists the shapes of tool calls.
pub open spec fn prompt_tool_calls() -> Seq<char> {
    "TOOL CALLS:\n"@
        + "When responding, you may return a single JSON object matching one of these shapes (no extra text):\n"@
        + "- {\"tool\":\"web_get\",\"url\":\"https://example.com\"}\n"@
        + "- {\"tool\":\"exec\",\"cmd\":\"<shell command>\"}\n"@
        + "- {\"tool\":\"final\",\"text\":\"<final answer>\"}\n\n"@
}

/// The part of the system prompt that states whether commands may run.
pub open spec fn prompt_exec_mode(full_exec: bool) -> Seq<char> {
    if full_exec {
        "EXEC MODE: FULL EXEC AUTO is ENABLED. You may run any shell command you deem necessary. Be careful and prefer read-only commands.\n"@
    } else {
        "EXEC MODE: restricted. Prefer web_get; avoid exec unless explicitly requested.\n"@
    }
}

/// The system prompt for the two modes.
pub open spec fn system_prompt_text(full_exec: bool, auto_act: bool) -> Seq<char> {
    prompt_intro() + (if auto_act {
        prompt_auto_act()
    } else {
        Seq::<char>::empty()
    }) + prompt_tool_calls() + prompt_exec_mode(full_exec)
}

/// The system prompt for the two modes: whether any shell command may run,
/// and whether requests for action must be met with tool calls.
pub fn system_prompt(dev_full_exec_auto: bool, auto_do_mode: bool) -> (r: String)
    ensures
        r@ == system_prompt_text(dev_full_exec_auto, auto_do_mode),
{
    let mut s = String::new();
    s.append("You are OpenClaw Desktop running locally. You can call tools when needed.\n\n");
    if auto_do_mode {
        s.append(
            "AUTO-DO MODE: Enabled. For action requests, you MUST use tools (exec/web_get) rather than giving plans.\n",
        );
        s.append("If you claim you did something, it must be backed by tool output.\n\n");
    }
    s.append("TOOL CALLS:\n");
    s.append(
        "When responding, you may return a single JSON object matching one of these shapes (no extra text):\n",
    );
    s.append("- {\"tool\":\"web_get\",\"url\":\"https://example.com\"}\n");
    s.append("- {\"tool\":\"exec\",\"cmd\":\"<shell command>\"}\n");
    s.append("- {\"tool\":\"final\",\"text\":\"<final answer>\"}\n\n");
    if dev_full_exec_auto {
        s.append(
            "EXEC MODE: FULL EXEC AUTO is ENABLED. You may run any shell command you deem necessary. Be careful and prefer read-only commands.\n",
        );
    } else {
        s.append("EXEC MODE: restricted. Prefer web_get; avoid exec unless explicitly requested.\n");
    }
    s
}

/// Whether a lower-case text holds one of the words that mark a request
/// for action.
pub open spec fn has_action_keyword(t: Seq<char>) -> bool {
    is_substring(t, "do it"@) || is_substring(t, "get it done"@) || is_substring(t, "fix"@)
        || is_substring(t, "install"@) || is_substring(t, "set up"@) || is_substring(t, "setup"@)
        || is_substring(t, "run"@) || is_substring(t, "execute"@) || is_substring(t, "create"@)
        || is_substring(t, "delete"@) || is_substring(t, "remove"@) || is_substring(t, "update"@)
        || is_substring(t, "build"@) || is_substring(t, "deploy"@)
}

/// Whether a text asks for an action: its lower-case form holds one of the
/// marking words.
pub open spec fn is_action_text(t: Seq<char>) -> bool {
    has_action_keyword(lowercase(t))
}

/// Whether a text that is already in lower case holds one of the words
/// that mark a request for action.
pub fn mentions_action(lowered: &str) -> (r: bool)
    ensures
        r == has_action_keyword(lowered@),
{
    contains(lowered, "do it") || contains(lowered, "get it done") || contains(lowered, "fix")
        || contains(lowered, "install") || contains(lowered, "set up") || contains(
        lowered,
        "setup",
    ) || contains(lowered, "run") || contains(lowered, "execute") || contains(lowered, "create")
        || contains(lowered, "delete") || contains(lowered, "remove") || contains(
        lowered,
        "update",
    ) || contains(lowered, "build") || contains(lowered, "deploy")
}

/// Whether a text asks for an action, whatever its case.
pub fn is_action_request(s: &str) -> (r: bool)
    ensures
        r == is_action_text(s@),
{
    let t = to_lowercase(s);
    mentions_action(t.as_str())
}

/// The instruction that forces a tool call.
pub open spec fn forcing_text() -> Seq<char> {
    "AUTO-DO: This is an action request. Reply with a single tool JSON (exec/web_get) to actually do the work. Do not answer with a plan."@
}

/// The backend role under which a message of the log is sent: tool
/// messages go as user messages.
pub open spec fn backend_role(role: ChatRole) -> OllamaRole {
    match role {
        ChatRole::User => OllamaRole::User,
        ChatRole::Assistant => OllamaRole::Assistant,
        ChatRole::Tool => OllamaRole::User,
    }
}

/// A message of the log as it is sent to the backend.
pub open spec fn as_backend(m: ChatMessageView) -> OllamaMessageView {
    OllamaMessageView { role: backend_role(m.role), content: m.text }
}

/// The last `n` messages of a log, oldest first, as they are sent.
pub open spec fn recent_messages(messages: Seq<ChatMessageView>, n: nat) -> Seq<
    OllamaMessageView,
> {
    let start = if messages.len() <= n {
        0
    } else {
        messages.len() - n
    };
    Seq::new((messages.len() - start) as nat, |i: int| as_backend(messages[start + i]))
}

/// Whether the forcing instruction is sent: auto-act mode is on and the
/// newest user message asks for an action.
pub open spec fn forces_tool_call(auto_act: bool, messages: Seq<ChatMessageView>) -> bool {
    auto_act && match newest_user_text(messages) {
        Some(t) => is_action_text(t),
        None => false,
    }
}

/// The messages that open a generation: the system prompt, the last
/// `take_last` messages of the log, and the forcing instruction where it
/// is due.
pub open spec fn base_messages(
    full_exec: bool,
    auto_act: bool,
    messages: Seq<ChatMessageView>,
    take_last: nat,
) -> Seq<OllamaMessageView> {
    seq![
        OllamaMessageView {
            role: OllamaRole::System,
            content: system_prompt_text(full_exec, auto_act),
        },
    ] + recent_messages(messages, take_last) + (if forces_tool_call(auto_act, messages) {
        seq![OllamaMessageView { role: OllamaRole::User, content: forcing_text() }]
    } else {
        Seq::<OllamaMessageView>::empty()
    })
}

/// Builds the messages that open a generation for a log.
pub fn base_msgs_for_thread(
    dev_full_exec_auto: bool,
    auto_do_mode: bool,
    thread: &ChatThread,
    take_last: usize,
) -> (r: Vec<OllamaMessage>)
    ensures
        r.deep_view() == base_messages(
            dev_full_exec_auto,
            auto_do_mode,
            thread@.messages,
            take_last as nat,
        ),
{
    let mut msgs: Vec<OllamaMessage> = Vec::new();
    msgs.push(
        OllamaMessage {
            role: OllamaRole::System,
            content: system_prompt(dev_full_exec_auto, auto_do_mode),
        },
    );
    let n = thread.messages.len();
    let start: usize = if n <= take_last {
        0
    } else {
        n - take_last
    };
    let ghost head = msgs.deep_view();
    let ghost recent = recent_messages(thread@.messages, take_last as nat);
    assert(head =~= seq![
        OllamaMessageView {
            role: OllamaRole::System,
            content: system_prompt_text(dev_full_exec_auto, auto_do_mode),
        },
    ]);
    let mut i: usize = start;
    while i < n
        invariant
            n == thread.messages@.len(),
            start <= i <= n,
            recent == recent_messages(thread@.messages, take_last as nat),
            recent.len() == n - start,
            forall|k: int| 0 <= k < n - start ==> recent[k] == as_backend(thread@.messages[start + k]),
            msgs.deep_view() == head + recent.subrange(0, i - start),
        decreases n - i,
    {
        let m = &thread.messages[i];
        let role = match m.role {
            ChatRole::User => OllamaRole::User,
            ChatRole::Assistant => OllamaRole::Assistant,
            ChatRole::Tool => OllamaRole::User,
        };
        let ghost before = msgs.deep_view();
        let item = OllamaMessage { role, content: m.text.clone() };
        msgs.push(item);
        assert(msgs.deep_view() =~= before.push(item@));
        i = i + 1;
    }
    assert(recent.subrange(0, n - start) =~= recent);
    if auto_do_mode {
        match thread.last_user_text() {
            Some(text) => {
                if is_action_request(text.as_str()) {
                    msgs.push(
                        OllamaMessage {
                            role: OllamaRole::User,
                            content: String::from_str(
                                "AUTO-DO: This is an action request. Reply with a single tool JSON (exec/web_get) to actually do the work. Do not answer with a plan.",
                            ),
                        },
                    );
                }
            },
            None => {},
        }
    }
    msgs
}

/// The messages that open a generation are the system prompt, at most
/// `take_last` messages of the log, and the forcing instruction at the
/// very end exactly when auto-act mode is on and the newest user message
/// asks for an action.
pub proof fn law_forcing_instruction_is_last(
    full_exec: bool,
    auto_act: bool,
    messages: Seq<ChatMessageView>,
    take_last: nat,
)
    ensures
        ({
            let opening = base_messages(full_exec, auto_act, messages, take_last);
            let sent = if messages.len() <= take_last {
                messages.len()
            } else {
                take_last
            };
            let forced = forces_tool_call(auto_act, messages);
            &&& opening[0].role == OllamaRole::System
            &&& opening.len() == 1 + sent + (if forced {
                1nat
            } else {
                0nat
            })
            &&& forced ==> opening.last() == (OllamaMessageView {
                role: OllamaRole::User,
                content: forcing_text(),
            })
            &&& !auto_act ==> !forced
            &&& forall|i: int|
                0 <= i < sent ==> #[trigger] opening[1 + i] == as_backend(
                    messages[messages.len() - sent + i],
                )
        }),
{
}

} // verus!
