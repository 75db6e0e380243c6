//! The tool loop: the bounded exchange between the chat backend and the
//! tools it asks for. The loop decides; its caller talks to the backend
//! and runs the tools, and hands back what came of it.

use crate::chats::ChatThread;
use crate::ollama::{clone_messages, OllamaChatReq, OllamaChatReqView, OllamaMessage, OllamaMessageView, OllamaRole};
use crate::prompt::{base_messages, base_msgs_for_thread, RECENT_MESSAGES};
use crate::tools::{
    decode, exec_denied_message, exec_denied_text, exec_message, exec_report, result_view,
    tool_call_of, tool_output, tool_output_text, web_get_message, web_get_report, ToolCall,
    ToolCallView,
};
use vstd::prelude::*;
use vstd::string::*;

verus! {

/// How many times one send may ask the backend.
pub const MAX_ROUND_TRIPS: usize = 6;

/// Why a loop ended without an answer.
#[derive(Debug)]
pub enum LoopError {
    /// The backend was asked as often as a send may ask, and the last
    /// reply was no answer.
    Exceeded,
    /// The backend failed; the text says how.
    Backend { message: String },
    /// The loop was handed something it was not waiting for.
    OutOfTurn,
}

/// `LoopError` with its text as a sequence of characters.
pub ghost enum LoopErrorView {
    Exceeded,
    Backend { message: Seq<char> },
    OutOfTurn,
}

impl View for LoopError {
    type V = LoopErrorView;

    open spec fn view(&self) -> LoopErrorView {
        match self {
            LoopError::Exceeded => LoopErrorView::Exceeded,
            LoopError::Backend { message } => LoopErrorView::Backend { message: message@ },
            LoopError::OutOfTurn => LoopErrorView::OutOfTurn,
        }
    }
}

impl LoopErrorView {
    /// The message shown for the error.
    pub open spec fn message(self) -> Seq<char> {
        match self {
            LoopErrorView::Exceeded => "tool loop exceeded"@,
            LoopErrorView::Backend { message } => message,
            LoopErrorView::OutOfTurn => "tool loop out of turn"@,
        }
    }
}

impl LoopError {
    /// The message shown for the error.
    pub fn message(&self) -> (r: String)
        ensures
            r@ == self@.message(),
    {
        match self {
            LoopError::Exceeded => String::from_str("tool loop exceeded"),
            LoopError::Backend { message } => message.clone(),
            LoopError::OutOfTurn => String::from_str("tool loop out of turn"),
        }
    }
}

/// What the caller of the loop does next.
#[derive(Debug)]
pub enum LoopAction {
    /// Send the loop's request to the backend: one round trip.
    Ask,
    /// Fetch the URL.
    Fetch { url: String },
    /// Run the shell command.
    Run { cmd: String },
    /// The send is answered.
    Answer { text: String },
    /// The send has failed.
    Fail { error: LoopError },
}

/// `LoopAction` with its texts as sequences of characters.
pub ghost enum LoopActionView {
    Ask,
    Fetch { url: Seq<char> },
    Run { cmd: Seq<char> },
    Answer { text: Seq<char> },
    Fail { error: LoopErrorView },
}

impl View for LoopAction {
    type V = LoopActionView;

    open spec fn view(&self) -> LoopActionView {
        match self {
            LoopAction::Ask => LoopActionView::Ask,
            LoopAction::Fetch { url } => LoopActionView::Fetch { url: url@ },
            LoopAction::Run { cmd } => LoopActionView::Run { cmd: cmd@ },
            LoopAction::Answer { text } => LoopActionView::Answer { text: text@ },
            LoopAction::Fail { error } => LoopActionView::Fail { error: error@ },
        }
    }
}

/// What the loop is waiting for.
enum Pending {
    Start,
    Reply,
    Fetch { url: String, reply: String },
    Run { cmd: String, reply: String },
    Closed,
}

/// What the loop is waiting for.
pub ghost enum PendingView {
    /// To be started.
    Start,
    /// The backend's reply.
    Reply,
    /// The page that `reply` asked for.
    Fetch { url: Seq<char>, reply: Seq<char> },
    /// The output of the command that `reply` asked for.
    Run { cmd: Seq<char>, reply: Seq<char> },
    /// Nothing: the loop has ended.
    Closed,
}

impl View for Pending {
    type V = PendingView;

    closed spec fn view(&self) -> PendingView {
        match self {
            Pending::Start => PendingView::Start,
            Pending::Reply => PendingView::Reply,
            Pending::Fetch { url, reply } => PendingView::Fetch { url: url@, reply: reply@ },
            Pending::Run { cmd, reply } => PendingView::Run { cmd: cmd@, reply: reply@ },
            Pending::Closed => PendingView::Closed,
        }
    }
}

/// The state of a loop as a mathematical value.
pub ghost struct ToolLoopView {
    /// The messages of the next request.
    pub messages: Seq<OllamaMessageView>,
    /// How often the backend was asked.
    pub round_trips: nat,
    /// Whether shell commands may run.
    pub full_exec: bool,
    pub pending: PendingView,
}

/// The two messages that a tool step adds to the request: the reply that
/// asked for the tool, as the assistant's, and the report, as the user's.
pub open spec fn tool_round(reply: Seq<char>, report: Seq<char>) -> Seq<OllamaMessageView> {
    seq![
        OllamaMessageView { role: OllamaRole::Assistant, content: reply },
        OllamaMessageView { role: OllamaRole::User, content: report },
    ]
}

impl ToolLoopView {
    /// The loop as it starts for a log.
    pub open spec fn initial(
        full_exec: bool,
        auto_act: bool,
        messages: Seq<crate::chats::ChatMessageView>,
    ) -> ToolLoopView {
        ToolLoopView {
            messages: base_messages(full_exec, auto_act, messages, RECENT_MESSAGES as nat),
            round_trips: 0,
            full_exec,
            pending: PendingView::Start,
        }
    }

    /// The loop never asks more often than a send may.
    pub open spec fn bounded(self) -> bool {
        self.round_trips <= MAX_ROUND_TRIPS
    }

    /// The next round trip, or the end of the loop where none is left.
    pub open spec fn ask(self) -> (ToolLoopView, LoopActionView) {
        if self.round_trips < MAX_ROUND_TRIPS {
            (
                ToolLoopView {
                    round_trips: self.round_trips + 1,
                    pending: PendingView::Reply,
                    ..self
                },
                LoopActionView::Ask,
            )
        } else {
            (
                ToolLoopView { pending: PendingView::Closed, ..self },
                LoopActionView::Fail { error: LoopErrorView::Exceeded },
            )
        }
    }

    /// The loop is left as it is, and the caller is told so.
    pub open spec fn out_of_turn(self) -> (ToolLoopView, LoopActionView) {
        (self, LoopActionView::Fail { error: LoopErrorView::OutOfTurn })
    }

    /// The loop with a tool round added to its request.
    pub open spec fn with_round(self, reply: Seq<char>, report: Seq<char>) -> ToolLoopView {
        ToolLoopView { messages: self.messages + tool_round(reply, report), ..self }
    }

    /// The first step of a loop.
    pub open spec fn on_start(self) -> (ToolLoopView, LoopActionView) {
        if self.pending is Start {
            self.ask()
        } else {
            self.out_of_turn()
        }
    }

    /// The step on a reply of the backend that was decoded to `call`.
    pub open spec fn on_reply(self, reply: Seq<char>, call: Option<ToolCallView>) -> (
        ToolLoopView,
        LoopActionView,
    ) {
        if !(self.pending is Reply) {
            self.out_of_turn()
        } else {
            match call {
                None => (
                    ToolLoopView { pending: PendingView::Closed, ..self },
                    LoopActionView::Answer { text: reply },
                ),
                Some(ToolCallView::Final { text }) => (
                    ToolLoopView { pending: PendingView::Closed, ..self },
                    LoopActionView::Answer { text },
                ),
                Some(ToolCallView::WebGet { url }) => (
                    ToolLoopView { pending: PendingView::Fetch { url, reply }, ..self },
                    LoopActionView::Fetch { url },
                ),
                Some(ToolCallView::Exec { cmd }) => if self.full_exec {
                    (
                        ToolLoopView { pending: PendingView::Run { cmd, reply }, ..self },
                        LoopActionView::Run { cmd },
                    )
                } else {
                    self.with_round(reply, exec_denied_text()).ask()
                },
            }
        }
    }

    /// The step on the outcome of a fetch.
    pub open spec fn on_fetched(self, result: Result<Seq<char>, Seq<char>>) -> (
        ToolLoopView,
        LoopActionView,
    ) {
        match self.pending {
            PendingView::Fetch { url, reply } => self.with_round(
                reply,
                web_get_report(url, tool_output_text(result)),
            ).ask(),
            _ => self.out_of_turn(),
        }
    }

    /// The step on what a command handed to the model.
    pub open spec fn on_ran_output(self, out: Seq<char>) -> (ToolLoopView, LoopActionView) {
        match self.pending {
            PendingView::Run { cmd, reply } => self.with_round(reply, exec_report(cmd, out)).ask(),
            _ => self.out_of_turn(),
        }
    }

    /// The step on the outcome of a command.
    pub open spec fn on_ran(self, result: Result<Seq<char>, Seq<char>>) -> (
        ToolLoopView,
        LoopActionView,
    ) {
        self.on_ran_output(tool_output_text(result))
    }

    /// The command that the loop is waiting for, if it waits for one.
    pub open spec fn pending_command(self) -> Option<Seq<char>> {
        match self.pending {
            PendingView::Run { cmd, reply } => Some(cmd),
            _ => None,
        }
    }

    /// The step on a failure of the backend.
    pub open spec fn on_backend_failed(self, message: Seq<char>) -> (
        ToolLoopView,
        LoopActionView,
    ) {
        if self.pending is Reply {
            (
                ToolLoopView { pending: PendingView::Closed, ..self },
                LoopActionView::Fail { error: LoopErrorView::Backend { message } },
            )
        } else {
            self.out_of_turn()
        }
    }
}

/// The tool loop of one send.
pub struct ToolLoop {
    messages: Vec<OllamaMessage>,
    round_trips: usize,
    full_exec: bool,
    pending: Pending,
}

impl View for ToolLoop {
    type V = ToolLoopView;

    closed spec fn view(&self) -> ToolLoopView {
        ToolLoopView {
            messages: self.messages.deep_view(),
            round_trips: self.round_trips as nat,
            full_exec: self.full_exec,
            pending: self.pending@,
        }
    }
}

impl ToolLoop {
    #[verifier::type_invariant]
    spec fn inv(self) -> bool {
        self.round_trips <= MAX_ROUND_TRIPS
    }

    /// The loop for a send on a log, with the two modes of the profile.
    pub fn new(dev_full_exec_auto: bool, auto_do_mode: bool, thread: &ChatThread) -> (r: Self)
        ensures
            r@ == ToolLoopView::initial(dev_full_exec_auto, auto_do_mode, thread@.messages),
    {
        ToolLoop {
            messages: base_msgs_for_thread(
                dev_full_exec_auto,
                auto_do_mode,
                thread,
                RECENT_MESSAGES,
            ),
            round_trips: 0,
            full_exec: dev_full_exec_auto,
            pending: Pending::Start,
        }
    }

    /// How often the backend was asked so far: never more than a send may.
    pub fn round_trips(&self) -> (r: usize)
        ensures
            r == self@.round_trips,
            r <= MAX_ROUND_TRIPS,
    {
        proof {
            use_type_invariant(self);
        }
        self.round_trips
    }

    /// Whether the loop has ended.
    pub fn is_closed(&self) -> (r: bool)
        ensures
            r == (self@.pending is Closed),
    {
        match self.pending {
            Pending::Closed => true,
            _ => false,
        }
    }

    /// The messages of the next request.
    pub fn messages(&self) -> (r: Vec<OllamaMessage>)
        ensures
            r.deep_view() == self@.messages,
    {
        clone_messages(&self.messages)
    }

    /// The request to send on `Ask`.
    pub fn request(&self, model: &str, stream: bool) -> (r: OllamaChatReq)
        ensures
            r@ == (OllamaChatReqView { model: model@, messages: self@.messages, stream }),
    {
        OllamaChatReq {
            model: String::from_str(model),
            messages: clone_messages(&self.messages),
            stream,
        }
    }

    fn ask(&mut self) -> (r: LoopAction)
        ensures
            (final(self)@, r@) == old(self)@.ask(),
    {
        proof {
            use_type_invariant(&*self);
        }
        if self.round_trips < MAX_ROUND_TRIPS {
            self.round_trips = self.round_trips + 1;
            self.pending = Pending::Reply;
            LoopAction::Ask
        } else {
            self.pending = Pending::Closed;
            LoopAction::Fail { error: LoopError::Exceeded }
        }
    }

    fn push_round(&mut self, reply: String, report: String)
        ensures
            final(self)@ == old(self)@.with_round(reply@, report@),
    {
        proof {
            use_type_invariant(&*self);
        }
        let mut messages: Vec<OllamaMessage> = Vec::new();
        core::mem::swap(&mut messages, &mut self.messages);
        let ghost before = messages.deep_view();
        messages.push(OllamaMessage { role: OllamaRole::Assistant, content: reply });
        messages.push(OllamaMessage { role: OllamaRole::User, content: report });
        assert(messages.deep_view() =~= before + tool_round(reply@, report@));
        self.messages = messages;
    }

    fn take_pending(&mut self) -> (r: Pending)
        ensures
            r@ == old(self)@.pending,
            final(self)@ == (ToolLoopView { pending: PendingView::Closed, ..old(self)@ }),
    {
        proof {
            use_type_invariant(&*self);
        }
        let mut pending = Pending::Closed;
        core::mem::swap(&mut pending, &mut self.pending);
        pending
    }

    /// Starts the loop.
    pub fn start(&mut self) -> (r: LoopAction)
        ensures
            (final(self)@, r@) == old(self)@.on_start(),
    {
        match self.pending {
            Pending::Start => self.ask(),
            _ => LoopAction::Fail { error: LoopError::OutOfTurn },
        }
    }

    /// Takes a reply of the backend that was decoded to `call`.
    pub fn reply_decoded(&mut self, reply: String, call: Option<ToolCall>) -> (r: LoopAction)
        ensures
            (final(self)@, r@) == old(self)@.on_reply(reply@, call.deep_view()),
    {
        match self.pending {
            Pending::Reply => {},
            _ => { return LoopAction::Fail { error: LoopError::OutOfTurn }; },
        }
        proof {
            use_type_invariant(&*self);
        }
        match call {
            None => {
                self.pending = Pending::Closed;
                LoopAction::Answer { text: reply }
            },
            Some(ToolCall::Final { text }) => {
                self.pending = Pending::Closed;
                LoopAction::Answer { text }
            },
            Some(ToolCall::WebGet { url }) => {
                self.pending = Pending::Fetch { url: url.clone(), reply };
                LoopAction::Fetch { url }
            },
            Some(ToolCall::Exec { cmd }) => {
                if self.full_exec {
                    self.pending = Pending::Run { cmd: cmd.clone(), reply };
                    LoopAction::Run { cmd }
                } else {
                    self.push_round(reply, exec_denied_message());
                    self.ask()
                }
            },
        }
    }

    /// Takes a reply of the backend: decodes it and decides on what it
    /// asks for. While shell commands may not run, a reply that asks for
    /// one is refused and the backend is asked again.
    pub fn reply(&mut self, reply: String) -> (r: LoopAction)
        ensures
            (final(self)@, r@) == old(self)@.on_reply(reply@, tool_call_of(reply@)),
    {
        let call = decode(reply.as_str());
        self.reply_decoded(reply, call)
    }

    /// Takes the outcome of the fetch that the loop asked for.
    pub fn fetched(&mut self, result: Result<String, String>) -> (r: LoopAction)
        ensures
            (final(self)@, r@) == old(self)@.on_fetched(result_view(result)),
    {
        match self.pending {
            Pending::Fetch { .. } => {},
            _ => { return LoopAction::Fail { error: LoopError::OutOfTurn }; },
        }
        match self.take_pending() {
            Pending::Fetch { url, reply } => {
                let out = tool_output(result);
                let report = web_get_message(url.as_str(), out.as_str());
                self.push_round(reply, report);
                self.ask()
            },
            _ => LoopAction::Fail { error: LoopError::OutOfTurn },
        }
    }

    /// Takes the outcome of the command that the loop asked for.
    pub fn ran(&mut self, result: Result<String, String>) -> (r: LoopAction)
        ensures
            (final(self)@, r@) == old(self)@.on_ran(result_view(result)),
    {
        let out = tool_output(result);
        self.ran_output(out.as_str())
    }

    /// Takes what the command that the loop asked for hands to the model.
    pub fn ran_output(&mut self, out: &str) -> (r: LoopAction)
        ensures
            (final(self)@, r@) == old(self)@.on_ran_output(out@),
    {
        match self.pending {
            Pending::Run { .. } => {},
            _ => { return LoopAction::Fail { error: LoopError::OutOfTurn }; },
        }
        match self.take_pending() {
            Pending::Run { cmd, reply } => {
                let report = exec_message(cmd.as_str(), out);
                self.push_round(reply, report);
                self.ask()
            },
            _ => LoopAction::Fail { error: LoopError::OutOfTurn },
        }
    }

    /// Whether the loop waits for a reply of the backend.
    pub fn awaits_reply(&self) -> (r: bool)
        ensures
            r == (self@.pending is Reply),
    {
        match self.pending {
            Pending::Reply => true,
            _ => false,
        }
    }

    /// Whether the loop waits for a fetched page.
    pub fn awaits_fetch(&self) -> (r: bool)
        ensures
            r == (self@.pending is Fetch),
    {
        match self.pending {
            Pending::Fetch { .. } => true,
            _ => false,
        }
    }

    /// The command whose output the loop waits for, if it waits for one.
    pub fn pending_command(&self) -> (r: Option<String>)
        ensures
            r.deep_view() == self@.pending_command(),
    {
        match &self.pending {
            Pending::Run { cmd, reply } => Some(cmd.clone()),
            _ => None,
        }
    }

    /// Takes a failure of the backend: the send fails with its message.
    pub fn backend_failed(&mut self, message: String) -> (r: LoopAction)
        ensures
            (final(self)@, r@) == old(self)@.on_backend_failed(message@),
    {
        match self.pending {
            Pending::Reply => {
                proof {
                    use_type_invariant(&*self);
                }
                self.pending = Pending::Closed;
                LoopAction::Fail { error: LoopError::Backend { message } }
            },
            _ => LoopAction::Fail { error: LoopError::OutOfTurn },
        }
    }
}

/// A loop that has asked as often as a send may asks no more: the next
/// attempt ends it with `Exceeded`, and the count stays where it is.
pub proof fn law_round_trip_after_last_fails(s: ToolLoopView)
    requires
        s.round_trips == MAX_ROUND_TRIPS,
    ensures
        s.ask().1 == (LoopActionView::Fail { error: LoopErrorView::Exceeded }),
        s.ask().0.round_trips == MAX_ROUND_TRIPS,
        s.ask().0.pending is Closed,
{
}

/// No step takes the count of round trips over the bound, and the count
/// goes up, by one, exactly when the step asks the backend.
pub proof fn law_round_trips_bounded(
    s: ToolLoopView,
    reply: Seq<char>,
    call: Option<ToolCallView>,
    result: Result<Seq<char>, Seq<char>>,
    message: Seq<char>,
)
    requires
        s.bounded(),
    ensures
        counts_round_trip(s, s.on_start()),
        counts_round_trip(s, s.on_reply(reply, call)),
        counts_round_trip(s, s.on_fetched(result)),
        counts_round_trip(s, s.on_ran(result)),
        counts_round_trip(s, s.on_backend_failed(message)),
{
}

/// What a step does to the count of round trips.
pub open spec fn counts_round_trip(s: ToolLoopView, step: (ToolLoopView, LoopActionView)) -> bool {
    &&& step.0.bounded()
    &&& step.1 is Ask ==> step.0.round_trips == s.round_trips + 1
    &&& !(step.1 is Ask) ==> step.0.round_trips == s.round_trips
}

/// While shell commands may not run, a reply that asks for one starts no
/// command: the request gains the reply and the refusal, nothing else,
/// and the loop goes on to ask the backend again or ends.
pub proof fn law_exec_denied(s: ToolLoopView, reply: Seq<char>, cmd: Seq<char>)
    requires
        s.pending is Reply,
        !s.full_exec,
    ensures
        ({
            let step = s.on_reply(reply, Some(ToolCallView::Exec { cmd }));
            &&& !(step.1 is Run)
            &&& !(step.0.pending is Run)
            &&& step.0.messages == s.messages + tool_round(reply, exec_denied_text())
            &&& step.0.messages.len() == s.messages.len() + 2
            &&& step.1 is Ask || step.1 == (LoopActionView::Fail { error: LoopErrorView::Exceeded })
        }),
{
}

} // verus!
