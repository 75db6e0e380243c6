//! The agent backend: the command line of the external agent tool, how its
//! answer is read, and when a failed call is made again.

use crate::desktop_agent::{default_agent_id, default_agent_text};
use crate::json::{absent_at, array_at, object_at, parsed_nodes, text_at, JsonDocument, Nodes};
use crate::text::{contains, decimal, is_substring, push_decimal, str_eq, texts};
use vstd::prelude::*;
use vstd::string::*;

verus! {

/// How often one send may call the agent tool.
pub const MAX_ATTEMPTS: usize = 3;

/// The time, in milliseconds, to wait before the tool is called again.
pub const RETRY_DELAY_MS: u64 = 650;

/// The time, in seconds, that the tool is given for one call.
pub open spec fn timeout_text() -> Seq<char> {
    "120"@
}

/// The agent that a send talks to: the one the conversation names, else
/// the default agent of the tool profile.
pub open spec fn chosen_agent(openclaw_profile: Seq<char>, agent_id: Option<Seq<char>>) -> Seq<
    char,
> {
    match agent_id {
        Some(a) => a,
        None => default_agent_text(openclaw_profile),
    }
}

/// The command line of a call of the agent: the tool profile first, then
/// the session, the message, the thinking effort where one is set, and
/// the agent.
pub open spec fn agent_command(
    openclaw_profile: Seq<char>,
    session_id: Seq<char>,
    message: Seq<char>,
    thinking: Option<Seq<char>>,
    agent_id: Option<Seq<char>>,
) -> Seq<Seq<char>> {
    seq![
        "--profile"@,
        openclaw_profile,
        "agent"@,
        "--local"@,
        "--session-id"@,
        session_id,
        "--message"@,
        message,
        "--json"@,
        "--channel"@,
        "last"@,
        "--timeout"@,
        timeout_text(),
    ] + (match thinking {
        Some(t) => seq!["--thinking"@, t],
        None => Seq::<Seq<char>>::empty(),
    }) + seq!["--agent"@, chosen_agent(openclaw_profile, agent_id)]
}

fn push_arg(args: &mut Vec<String>, arg: &str)
    ensures
        texts(final(args)@) == texts(old(args)@).push(arg@),
{
    args.push(String::from_str(arg));
}

/// The view of an optional text that is borrowed.
pub open spec fn opt_text(o: Option<&str>) -> Option<Seq<char>> {
    match o {
        Some(t) => Some(t@),
        None => None,
    }
}

/// Builds the command line of a call of the agent.
pub fn agent_args(
    openclaw_profile: &str,
    session_id: &str,
    message: &str,
    thinking: Option<&str>,
    agent_id: Option<&str>,
) -> (r: Vec<String>)
    ensures
        texts(r@) == agent_command(
            openclaw_profile@,
            session_id@,
            message@,
            opt_text(thinking),
            opt_text(agent_id),
        ),
{
    let mut args: Vec<String> = Vec::new();
    push_arg(&mut args, "--profile");
    push_arg(&mut args, openclaw_profile);
    push_arg(&mut args, "agent");
    push_arg(&mut args, "--local");
    push_arg(&mut args, "--session-id");
    push_arg(&mut args, session_id);
    push_arg(&mut args, "--message");
    push_arg(&mut args, message);
    push_arg(&mut args, "--json");
    push_arg(&mut args, "--channel");
    push_arg(&mut args, "last");
    push_arg(&mut args, "--timeout");
    push_arg(&mut args, "120");
    match thinking {
        Some(t) => {
            push_arg(&mut args, "--thinking");
            push_arg(&mut args, t);
        },
        None => {},
    }
    push_arg(&mut args, "--agent");
    match agent_id {
        Some(a) => {
            push_arg(&mut args, a);
        },
        None => {
            let chosen = default_agent_id(openclaw_profile);
            push_arg(&mut args, chosen.as_str());
        },
    }
    args
}

/// The command line that lists the agents of a tool profile.
pub open spec fn list_command(openclaw_profile: Seq<char>) -> Seq<Seq<char>> {
    seq!["--profile"@, openclaw_profile, "agents"@, "list"@, "--json"@]
}

/// The command line that adds an agent to a tool profile.
pub open spec fn add_command(
    openclaw_profile: Seq<char>,
    workspace: Seq<char>,
    model_id: Seq<char>,
    agent_id: Seq<char>,
) -> Seq<Seq<char>> {
    seq![
        "--profile"@,
        openclaw_profile,
        "agents"@,
        "add"@,
        "--non-interactive"@,
        "--workspace"@,
        workspace,
        "--model"@,
        model_id,
        agent_id,
    ]
}

/// Builds the command line that lists the agents of a tool profile.
pub fn agents_list_args(openclaw_profile: &str) -> (r: Vec<String>)
    ensures
        texts(r@) == list_command(openclaw_profile@),
{
    let mut args: Vec<String> = Vec::new();
    push_arg(&mut args, "--profile");
    push_arg(&mut args, openclaw_profile);
    push_arg(&mut args, "agents");
    push_arg(&mut args, "list");
    push_arg(&mut args, "--json");
    args
}

/// Builds the command line that adds an agent to a tool profile.
pub fn agents_add_args(openclaw_profile: &str, workspace: &str, model_id: &str, agent_id: &str) -> (r:
    Vec<String>)
    ensures
        texts(r@) == add_command(openclaw_profile@, workspace@, model_id@, agent_id@),
{
    let mut args: Vec<String> = Vec::new();
    push_arg(&mut args, "--profile");
    push_arg(&mut args, openclaw_profile);
    push_arg(&mut args, "agents");
    push_arg(&mut args, "add");
    push_arg(&mut args, "--non-interactive");
    push_arg(&mut args, "--workspace");
    push_arg(&mut args, workspace);
    push_arg(&mut args, "--model");
    push_arg(&mut args, model_id);
    push_arg(&mut args, agent_id);
    args
}

/// The pointer to the element `i` of the array under `base`.
pub open spec fn element_at(base: Seq<char>, i: nat) -> Seq<char> {
    base + "/"@ + decimal(i)
}

/// The pointer to the member `key` of the element `i` of the array under
/// `base`.
pub open spec fn member_at(base: Seq<char>, i: nat, key: Seq<char>) -> Seq<char> {
    element_at(base, i) + "/"@ + key
}

fn element_pointer(base: &str, i: usize) -> (r: String)
    ensures
        r@ == element_at(base@, i as nat),
{
    let mut p = String::from_str(base);
    p.append("/");
    push_decimal(&mut p, i as u64);
    p
}

fn member_pointer(base: &str, i: usize, key: &str) -> (r: String)
    ensures
        r@ == member_at(base@, i as nat, key@),
{
    let mut p = element_pointer(base, i);
    p.append("/");
    p.append(key);
    p
}

/// Whether the first `n` elements of the list of agents are objects with
/// a text as `id`.
pub open spec fn agents_ok(nodes: Nodes, n: nat) -> bool {
    forall|i: nat|
        i < n ==> object_at(nodes, #[trigger] element_at("/agents"@, i)) && text_at(
            nodes,
            member_at("/agents"@, i, "id"@),
        ) is Some
}

/// Whether one of the first `n` agents of the list has the identifier.
pub open spec fn agent_among(nodes: Nodes, n: nat, agent_id: Seq<char>) -> bool {
    exists|i: nat| i < n && text_at(nodes, #[trigger] member_at("/agents"@, i, "id"@)) == Some(agent_id)
}

/// Whether a document is a list of agents that holds the identifier: an
/// object whose member `agents` is an array of objects, each with a text
/// as `id`, one of which is the identifier.
pub open spec fn agent_listed_in(nodes: Nodes, agent_id: Seq<char>) -> bool {
    object_at(nodes, Seq::empty()) && (match array_at(nodes, "/agents"@) {
        Some(n) => agents_ok(nodes, n) && agent_among(nodes, n, agent_id),
        None => false,
    })
}

/// Whether the listing of the agents shows the agent: the listing
/// succeeded and its output is a list that holds the identifier.
pub open spec fn agent_listed(success: bool, stdout: Seq<char>, agent_id: Seq<char>) -> bool {
    success && (match parsed_nodes(stdout) {
        Some(nodes) => agent_listed_in(nodes, agent_id),
        None => false,
    })
}

/// Looks for an agent in a parsed list of agents.
pub fn agent_in_document(doc: &JsonDocument, agent_id: &str) -> (r: bool)
    ensures
        r == agent_listed_in(doc@, agent_id@),
{
    proof {
        reveal_strlit("");
        assert(""@ =~= Seq::<char>::empty());
    }
    if !doc.is_object("") {
        return false;
    }
    let n = match doc.array_len("/agents") {
        Some(n) => n,
        None => { return false; },
    };
    let mut found = false;
    let mut i: usize = 0;
    while i < n
        invariant
            i <= n,
            object_at(doc@, Seq::empty()),
            array_at(doc@, "/agents"@) == Some(n as nat),
            agents_ok(doc@, i as nat),
            found == agent_among(doc@, i as nat, agent_id@),
        decreases n - i,
    {
        let at = element_pointer("/agents", i);
        let id_at = member_pointer("/agents", i, "id");
        if !doc.is_object(at.as_str()) {
            return false;
        }
        match doc.text(id_at.as_str()) {
            Some(id) => {
                if str_eq(id.as_str(), agent_id) {
                    found = true;
                }
            },
            None => {
                return false;
            },
        }
        i = i + 1;
    }
    found
}

/// What is to be done for the agent of a send after the agents were
/// listed: nothing where the listing shows the agent, else the command
/// line that adds it with the workspace and the model.
pub fn ensure_desktop_agent(
    list_success: bool,
    list_stdout: &str,
    openclaw_profile: &str,
    workspace: &str,
    agent_id: &str,
    model_id: &str,
) -> (r: Option<Vec<String>>)
    ensures
        r is None == agent_listed(list_success, list_stdout@, agent_id@),
        r matches Some(args) ==> texts(args@) == add_command(
            openclaw_profile@,
            workspace@,
            model_id@,
            agent_id@,
        ),
{
    if list_success {
        match JsonDocument::parse(list_stdout) {
            Some(doc) => {
                if agent_in_document(&doc, agent_id) {
                    return None;
                }
            },
            None => {},
        }
    }
    Some(agents_add_args(openclaw_profile, workspace, model_id, agent_id))
}

/// The answer that stands for an envelope without text.
pub open spec fn no_payload_text() -> Seq<char> {
    "(no text payload)"@
}

/// Whether the element `i` of the payloads is an object whose member
/// `text`, where it has one, is a text.
pub open spec fn payload_ok(nodes: Nodes, i: nat) -> bool {
    object_at(nodes, element_at("/result/payloads"@, i)) && (absent_at(
        nodes,
        member_at("/result/payloads"@, i, "text"@),
    ) || text_at(nodes, member_at("/result/payloads"@, i, "text"@)) is Some)
}

/// Whether each of the first `n` payloads is well formed.
pub open spec fn payloads_ok(nodes: Nodes, n: nat) -> bool {
    forall|i: nat| i < n ==> #[trigger] payload_ok(nodes, i)
}

/// The text of the first of the first `n` payloads that has one.
pub open spec fn first_payload_text(nodes: Nodes, n: nat) -> Option<Seq<char>>
    decreases n,
{
    if n == 0 {
        None
    } else {
        match first_payload_text(nodes, (n - 1) as nat) {
            Some(t) => Some(t),
            None => text_at(nodes, member_at("/result/payloads"@, (n - 1) as nat, "text"@)),
        }
    }
}

/// The answer in the envelope that the agent tool prints: the text of the
/// first payload that has one, or the stand-in where there is none or the
/// envelope has no result. `None` where the document is no envelope.
pub open spec fn agent_text_in(nodes: Nodes) -> Option<Seq<char>> {
    if !object_at(nodes, Seq::empty()) {
        None
    } else if absent_at(nodes, "/result"@) {
        Some(no_payload_text())
    } else if !object_at(nodes, "/result"@) {
        None
    } else {
        match array_at(nodes, "/result/payloads"@) {
            Some(n) => if payloads_ok(nodes, n) {
                match first_payload_text(nodes, n) {
                    Some(t) => Some(t),
                    None => Some(no_payload_text()),
                }
            } else {
                None
            },
            None => None,
        }
    }
}

/// The answer in the output of the agent tool.
pub open spec fn agent_text_of(stdout: Seq<char>) -> Option<Seq<char>> {
    match parsed_nodes(stdout) {
        Some(nodes) => agent_text_in(nodes),
        None => None,
    }
}

/// Reads the answer out of a parsed envelope.
pub fn agent_text_from_document(doc: &JsonDocument) -> (r: Option<String>)
    ensures
        r.deep_view() == agent_text_in(doc@),
{
    proof {
        reveal_strlit("");
        assert(""@ =~= Seq::<char>::empty());
    }
    if !doc.is_object("") {
        return None;
    }
    if doc.is_absent("/result") {
        return Some(String::from_str("(no text payload)"));
    }
    if !doc.is_object("/result") {
        return None;
    }
    let n = match doc.array_len("/result/payloads") {
        Some(n) => n,
        None => { return None; },
    };
    let mut found: Option<String> = None;
    let mut i: usize = 0;
    while i < n
        invariant
            i <= n,
            object_at(doc@, Seq::empty()),
            !absent_at(doc@, "/result"@),
            object_at(doc@, "/result"@),
            array_at(doc@, "/result/payloads"@) == Some(n as nat),
            payloads_ok(doc@, i as nat),
            found.deep_view() == first_payload_text(doc@, i as nat),
        decreases n - i,
    {
        let at = element_pointer("/result/payloads", i);
        let text_pointer = member_pointer("/result/payloads", i, "text");
        if !doc.is_object(at.as_str()) {
            assert(!payload_ok(doc@, i as nat));
            return None;
        }
        match doc.text(text_pointer.as_str()) {
            Some(t) => {
                if found.is_none() {
                    found = Some(t);
                }
            },
            None => {
                if !doc.is_absent(text_pointer.as_str()) {
                    assert(!payload_ok(doc@, i as nat));
                    return None;
                }
            },
        }
        i = i + 1;
    }
    match found {
        Some(t) => Some(t),
        None => Some(String::from_str("(no text payload)")),
    }
}

/// Why a call of the agent backend failed for good.
#[derive(Debug)]
pub enum AgentError {
    /// The tool could not be started.
    Spawn,
    /// The tool succeeded, but its output is no envelope.
    BadJson,
    /// The tool failed; the text is what it wrote to standard error.
    Failed { stderr: String },
    /// The run was handed something it was not waiting for.
    OutOfTurn,
}

/// `AgentError` with its text as a sequence of characters.
pub ghost enum AgentErrorView {
    Spawn,
    BadJson,
    Failed { stderr: Seq<char> },
    OutOfTurn,
}

impl View for AgentError {
    type V = AgentErrorView;

    open spec fn view(&self) -> AgentErrorView {
        match self {
            AgentError::Spawn => AgentErrorView::Spawn,
            AgentError::BadJson => AgentErrorView::BadJson,
            AgentError::Failed { stderr } => AgentErrorView::Failed { stderr: stderr@ },
            AgentError::OutOfTurn => AgentErrorView::OutOfTurn,
        }
    }
}

impl AgentErrorView {
    /// The message shown for the error.
    pub open spec fn message(self) -> Seq<char> {
        match self {
            AgentErrorView::Spawn => "failed to run openclaw agent"@,
            AgentErrorView::BadJson => "failed to parse agent JSON"@,
            AgentErrorView::Failed { stderr } => stderr,
            AgentErrorView::OutOfTurn => "agent run out of turn"@,
        }
    }
}

impl AgentError {
    /// The message shown for the error.
    pub fn message(&self) -> (r: String)
        ensures
            r@ == self@.message(),
    {
        match self {
            AgentError::Spawn => String::from_str("failed to run openclaw agent"),
            AgentError::BadJson => String::from_str("failed to parse agent JSON"),
            AgentError::Failed { stderr } => stderr.clone(),
            AgentError::OutOfTurn => String::from_str("agent run out of turn"),
        }
    }
}

/// Whether an error text tells of a session lock that an interrupted run
/// left behind.
pub open spec fn is_stale_lock(error: Seq<char>) -> bool {
    is_substring(error, "session file locked"@)
}

/// Whether a failure may be met with another call.
pub fn is_retryable(error: &str) -> (r: bool)
    ensures
        r == is_stale_lock(error@),
{
    contains(error, "session file locked")
}

/// What the caller of a run does next.
#[derive(Debug)]
pub enum AgentAction {
    /// Call the tool.
    Call,
    /// Wait for the given time, then call the tool again.
    Retry { delay_ms: u64 },
    /// The send is answered.
    Answer { text: String },
    /// The send has failed.
    Fail { error: AgentError },
}

/// `AgentAction` with its texts as sequences of characters.
pub ghost enum AgentActionView {
    Call,
    Retry { delay_ms: u64 },
    Answer { text: Seq<char> },
    Fail { error: AgentErrorView },
}

impl View for AgentAction {
    type V = AgentActionView;

    open spec fn view(&self) -> AgentActionView {
        match self {
            AgentAction::Call => AgentActionView::Call,
            AgentAction::Retry { delay_ms } => AgentActionView::Retry { delay_ms: *delay_ms },
            AgentAction::Answer { text } => AgentActionView::Answer { text: text@ },
            AgentAction::Fail { error } => AgentActionView::Fail { error: error@ },
        }
    }
}

/// The state of a run as a mathematical value.
pub ghost struct AgentRunView {
    /// How many calls of the tool were asked for.
    pub attempts: nat,
    /// Whether a call is under way.
    pub calling: bool,
}

impl AgentRunView {
    /// A run before its first call.
    pub open spec fn initial() -> AgentRunView {
        AgentRunView { attempts: 0, calling: false }
    }

    /// Nothing happens, and the caller is told that nothing was due.
    pub open spec fn out_of_turn(self) -> (AgentRunView, AgentActionView) {
        (self, AgentActionView::Fail { error: AgentErrorView::OutOfTurn })
    }

    /// The first step: the first call.
    pub open spec fn on_start(self) -> (AgentRunView, AgentActionView) {
        if self.attempts == 0 && !self.calling {
            (AgentRunView { attempts: 1, calling: true }, AgentActionView::Call)
        } else {
            self.out_of_turn()
        }
    }

    /// The step when the tool could not be started: the send fails at
    /// once.
    pub open spec fn on_spawn_failed(self) -> (AgentRunView, AgentActionView) {
        if self.calling {
            (
                AgentRunView { calling: false, ..self },
                AgentActionView::Fail { error: AgentErrorView::Spawn },
            )
        } else {
            self.out_of_turn()
        }
    }

    /// The step when the tool has ended, with the answer that was read out
    /// of its output. A success answers the send, or fails it where no
    /// answer could be read. A failure that tells of a stale session lock
    /// is met with another call while calls are left; any other failure,
    /// and the last of the calls, fails the send with what the tool wrote.
    pub open spec fn on_exit_read(
        self,
        success: bool,
        answer: Option<Seq<char>>,
        stderr: Seq<char>,
    ) -> (AgentRunView, AgentActionView) {
        if !self.calling {
            self.out_of_turn()
        } else if success {
            (
                AgentRunView { calling: false, ..self },
                match answer {
                    Some(text) => AgentActionView::Answer { text },
                    None => AgentActionView::Fail { error: AgentErrorView::BadJson },
                },
            )
        } else if is_stale_lock(stderr) && self.attempts < MAX_ATTEMPTS {
            (
                AgentRunView { attempts: self.attempts + 1, calling: true },
                AgentActionView::Retry { delay_ms: RETRY_DELAY_MS },
            )
        } else {
            (
                AgentRunView { calling: false, ..self },
                AgentActionView::Fail { error: AgentErrorView::Failed { stderr } },
            )
        }
    }

    /// The step when the tool has ended: the output of a success is read
    /// as an envelope.
    pub open spec fn on_exit(self, success: bool, stdout: Seq<char>, stderr: Seq<char>) -> (
        AgentRunView,
        AgentActionView,
    ) {
        self.on_exit_read(success, agent_text_of(stdout), stderr)
    }
}

/// One send through the agent backend: up to three calls of the tool.
pub struct AgentRun {
    attempts: usize,
    calling: bool,
}

impl View for AgentRun {
    type V = AgentRunView;

    closed spec fn view(&self) -> AgentRunView {
        AgentRunView { attempts: self.attempts as nat, calling: self.calling }
    }
}

impl AgentRun {
    #[verifier::type_invariant]
    spec fn inv(self) -> bool {
        self.attempts <= MAX_ATTEMPTS
    }

    /// A run before its first call.
    pub fn new() -> (r: Self)
        ensures
            r@ == AgentRunView::initial(),
    {
        AgentRun { attempts: 0, calling: false }
    }

    /// How many calls of the tool were asked for: never more than three.
    pub fn attempts(&self) -> (r: usize)
        ensures
            r == self@.attempts,
            r <= MAX_ATTEMPTS,
    {
        proof {
            use_type_invariant(self);
        }
        self.attempts
    }

    /// Starts the run.
    pub fn start(&mut self) -> (r: AgentAction)
        ensures
            (final(self)@, r@) == old(self)@.on_start(),
    {
        if self.attempts == 0 && !self.calling {
            self.attempts = 1;
            self.calling = true;
            AgentAction::Call
        } else {
            AgentAction::Fail { error: AgentError::OutOfTurn }
        }
    }

    /// Takes the news that the tool could not be started.
    pub fn spawn_failed(&mut self) -> (r: AgentAction)
        ensures
            (final(self)@, r@) == old(self)@.on_spawn_failed(),
    {
        proof {
            use_type_invariant(&*self);
        }
        if self.calling {
            self.calling = false;
            AgentAction::Fail { error: AgentError::Spawn }
        } else {
            AgentAction::Fail { error: AgentError::OutOfTurn }
        }
    }

    /// Takes the end of a call of the tool, with the answer that was read
    /// out of its output.
    pub fn exited_with(&mut self, success: bool, answer: Option<String>, stderr: String) -> (r:
        AgentAction)
        ensures
            (final(self)@, r@) == old(self)@.on_exit_read(success, answer.deep_view(), stderr@),
    {
        proof {
            use_type_invariant(&*self);
        }
        if !self.calling {
            return AgentAction::Fail { error: AgentError::OutOfTurn };
        }
        if success {
            self.calling = false;
            match answer {
                Some(text) => AgentAction::Answer { text },
                None => AgentAction::Fail { error: AgentError::BadJson },
            }
        } else if is_retryable(stderr.as_str()) && self.attempts < MAX_ATTEMPTS {
            self.attempts = self.attempts + 1;
            AgentAction::Retry { delay_ms: RETRY_DELAY_MS }
        } else {
            self.calling = false;
            AgentAction::Fail { error: AgentError::Failed { stderr } }
        }
    }

    /// Takes the end of a call of the tool: whether it succeeded, and
    /// what it wrote to standard output and standard error.
    pub fn exited(&mut self, success: bool, stdout: &str, stderr: String) -> (r: AgentAction)
        ensures
            (final(self)@, r@) == old(self)@.on_exit(success, stdout@, stderr@),
    {
        let answer = if success {
            match JsonDocument::parse(stdout) {
                Some(doc) => agent_text_from_document(&doc),
                None => None,
            }
        } else {
            None
        };
        self.exited_with(success, answer, stderr)
    }
}

/// What a step does to the count of calls: it stays within the bound,
/// and goes up, by one, exactly when the step asks for a call.
pub open spec fn counts_attempt(s: AgentRunView, step: (AgentRunView, AgentActionView)) -> bool {
    &&& step.0.attempts <= MAX_ATTEMPTS
    &&& (step.1 is Call || step.1 is Retry) ==> step.0.attempts == s.attempts + 1
    &&& !(step.1 is Call || step.1 is Retry) ==> step.0.attempts == s.attempts
}

/// No step asks for more calls than a send may make.
pub proof fn law_attempts_bounded(
    s: AgentRunView,
    success: bool,
    stdout: Seq<char>,
    stderr: Seq<char>,
)
    requires
        s.attempts <= MAX_ATTEMPTS,
    ensures
        counts_attempt(s, s.on_start()),
        counts_attempt(s, s.on_spawn_failed()),
        counts_attempt(s, s.on_exit(success, stdout, stderr)),
{
}

/// Two failures that tell of a stale lock are each met with another call
/// after the delay; the third call is the last, whatever comes of it: its
/// success answers the send, its failure fails it.
pub proof fn law_retry_twice(
    first: Seq<char>,
    second: Seq<char>,
    stdout: Seq<char>,
    third: Seq<char>,
)
    requires
        is_stale_lock(first),
        is_stale_lock(second),
    ensures
        ({
            let s0 = AgentRunView::initial().on_start();
            let s1 = s0.0.on_exit(false, Seq::empty(), first);
            let s2 = s1.0.on_exit(false, Seq::empty(), second);
            let won = s2.0.on_exit(true, stdout, Seq::empty());
            let lost = s2.0.on_exit(false, Seq::empty(), third);
            &&& s0.1 is Call
            &&& s1.1 == (AgentActionView::Retry { delay_ms: RETRY_DELAY_MS })
            &&& s2.1 == (AgentActionView::Retry { delay_ms: RETRY_DELAY_MS })
            &&& s2.0.attempts == 3
            &&& won.0.attempts == 3
            &&& (agent_text_of(stdout) matches Some(text) ==> won.1 == (AgentActionView::Answer {
                text,
            }))
            &&& lost.1 == (AgentActionView::Fail { error: AgentErrorView::Failed { stderr: third } })
            &&& lost.0.attempts == 3
        }),
{
}

/// A failure that tells of no stale lock is met with no other call.
pub proof fn law_other_failures_final(s: AgentRunView, stderr: Seq<char>)
    requires
        s.calling,
        !is_stale_lock(stderr),
    ensures
        s.on_exit(false, Seq::empty(), stderr).1 == (AgentActionView::Fail {
            error: AgentErrorView::Failed { stderr },
        }),
        !s.on_exit(false, Seq::empty(), stderr).0.calling,
{
}

} // verus!
