//! The streaming pipeline of one send: pieces of the answer are published
//! as they come and written into the log, the log is stored at most once
//! per interval while they come and once more when the answer ends, and
//! tool calls are worked off between the answers.

use crate::chat_stream::{ChatStreamEvent, ChatStreamEventView};
use crate::chats::{
    has_message, law_text_replacement, message_text, ChatMessageView, ChatRole, ChatThread,
    ChatThreadView,
};
use crate::tool_loop::tool_round;
use crate::tools::exec_denied_text;
use crate::ids::{id_text, law_tool_and_message_ids_differ, next_seq, IdSource};
use crate::ollama::{
    stream_line, stream_line_of, OllamaChatReq, OllamaChatReqView, OllamaError, OllamaErrorView,
    StreamLine, StreamLineView,
};
use crate::tool_loop::{LoopAction, LoopActionView, LoopErrorView, ToolLoop, ToolLoopView};
use crate::tools::{
    decode, exec_log_message, exec_log_text, result_view, tool_call_of, tool_output,
    tool_output_text, ToolCall, ToolCallView,
};
use vstd::prelude::*;
use vstd::string::*;

verus! {

/// The least time, in milliseconds, between two stores of the log while an
/// answer is coming in.
pub const PERSIST_INTERVAL_MS: i64 = 250;

/// Something the caller does for the session, in the order given.
#[derive(Debug)]
pub enum StreamEffect {
    /// Publish the event to the observers.
    Emit { event: ChatStreamEvent },
    /// Store the session's log.
    Persist,
}

/// `StreamEffect` as a mathematical value.
pub ghost enum StreamEffectView {
    Emit { event: ChatStreamEventView },
    Persist,
}

impl View for StreamEffect {
    type V = StreamEffectView;

    open spec fn view(&self) -> StreamEffectView {
        match self {
            StreamEffect::Emit { event } => StreamEffectView::Emit { event: event@ },
            StreamEffect::Persist => StreamEffectView::Persist,
        }
    }
}

impl DeepView for StreamEffect {
    type V = StreamEffectView;

    open spec fn deep_view(&self) -> StreamEffectView {
        self@
    }
}

/// What the caller does after the effects of a step.
#[derive(Debug)]
pub enum StreamNext {
    /// Hand over the next line of the answer, or its end.
    Read,
    /// Send the session's request and hand over the answer line by line.
    Ask,
    /// Fetch the URL and hand over the outcome.
    Fetch { url: String },
    /// Run the shell command and hand over the outcome.
    Run { cmd: String },
    /// Nothing: the send is over.
    Done,
    /// Nothing: the session was not waiting for what it was handed.
    OutOfTurn,
}

/// `StreamNext` with its texts as sequences of characters.
pub ghost enum StreamNextView {
    Read,
    Ask,
    Fetch { url: Seq<char> },
    Run { cmd: Seq<char> },
    Done,
    OutOfTurn,
}

impl View for StreamNext {
    type V = StreamNextView;

    open spec fn view(&self) -> StreamNextView {
        match self {
            StreamNext::Read => StreamNextView::Read,
            StreamNext::Ask => StreamNextView::Ask,
            StreamNext::Fetch { url } => StreamNextView::Fetch { url: url@ },
            StreamNext::Run { cmd } => StreamNextView::Run { cmd: cmd@ },
            StreamNext::Done => StreamNextView::Done,
            StreamNext::OutOfTurn => StreamNextView::OutOfTurn,
        }
    }
}

/// What a step of the session asks of its caller.
#[derive(Debug)]
pub struct StreamStep {
    pub effects: Vec<StreamEffect>,
    pub next: StreamNext,
}

/// The session after a step, with what the step asks of the caller.
pub ghost struct StreamOutcome {
    pub session: StreamSessionView,
    pub effects: Seq<StreamEffectView>,
    pub next: StreamNextView,
}

/// The state of a session as a mathematical value.
pub ghost struct StreamSessionView {
    pub profile_id: Seq<char>,
    pub chat_id: Seq<char>,
    /// The log of the conversation.
    pub thread: ChatThreadView,
    /// The message that takes the answer.
    pub message_id: Seq<char>,
    /// The answer as far as it has come in.
    pub accumulated: Seq<char>,
    /// When the log was last stored.
    pub last_persist_ms: i64,
    /// Whether a message was added to the log after the one that takes the
    /// answer, so that the next answer needs a message of its own.
    pub interrupted: bool,
    pub tools: ToolLoopView,
}

/// Whether the log may be stored at `now_ms`: the interval has passed
/// since the last store.
pub open spec fn throttle_open(last_persist_ms: i64, now_ms: i64) -> bool {
    now_ms - last_persist_ms >= PERSIST_INTERVAL_MS
}

/// The message shown when a line of the answer cannot be read.
pub open spec fn bad_line_text() -> Seq<char> {
    OllamaErrorView::BadStreamLine.message()
}

impl StreamSessionView {
    /// The session as it starts.
    pub open spec fn initial(
        profile_id: Seq<char>,
        chat_id: Seq<char>,
        thread: ChatThreadView,
        message_id: Seq<char>,
        full_exec: bool,
        auto_act: bool,
        now_ms: i64,
    ) -> StreamSessionView {
        StreamSessionView {
            profile_id,
            chat_id,
            thread,
            message_id,
            accumulated: Seq::empty(),
            last_persist_ms: now_ms,
            interrupted: false,
            tools: ToolLoopView::initial(full_exec, auto_act, thread.messages),
        }
    }

    /// Nothing happens, and the caller is told that nothing was due.
    pub open spec fn out_of_turn(self) -> StreamOutcome {
        StreamOutcome { session: self, effects: Seq::empty(), next: StreamNextView::OutOfTurn }
    }

    /// The session with what has come in written into the message that
    /// takes the answer; nothing is written where nothing has come in.
    pub open spec fn with_answer_written(self) -> StreamSessionView {
        if self.accumulated.len() > 0 {
            StreamSessionView {
                thread: self.thread.with_text(self.message_id, self.accumulated),
                ..self
            }
        } else {
            self
        }
    }

    /// The event of a failure of the send.
    pub open spec fn failure_event(self, message: Seq<char>) -> ChatStreamEventView {
        ChatStreamEventView::failure(self.profile_id, self.chat_id, self.message_id, message)
    }

    /// The send fails: what has come in is kept in the log, the log is
    /// stored, and one event tells the failure.
    pub open spec fn fail(self, message: Seq<char>) -> StreamOutcome {
        StreamOutcome {
            session: self.with_answer_written(),
            effects: seq![
                StreamEffectView::Persist,
                StreamEffectView::Emit { event: self.failure_event(message) },
            ],
            next: StreamNextView::Done,
        }
    }

    /// What follows a step of the tool loop that came after a tool: the
    /// next answer is asked for, or the send fails.
    pub open spec fn after_tool(self, step: (ToolLoopView, LoopActionView)) -> StreamOutcome {
        let s = StreamSessionView { tools: step.0, ..self };
        match step.1 {
            LoopActionView::Ask => StreamOutcome {
                session: StreamSessionView { accumulated: Seq::empty(), ..s },
                effects: Seq::empty(),
                next: StreamNextView::Ask,
            },
            LoopActionView::Fail { error } => StreamOutcome {
                session: s,
                effects: seq![StreamEffectView::Emit { event: s.failure_event(error.message()) }],
                next: StreamNextView::Done,
            },
            _ => s.out_of_turn(),
        }
    }

    /// The first step: the first answer is asked for.
    pub open spec fn on_start(self) -> StreamOutcome {
        if self.tools.pending is Start {
            self.after_tool(self.tools.on_start())
        } else {
            self.out_of_turn()
        }
    }

    /// A piece of the answer has come in. It is added to what has come in
    /// and published. Where a message was added to the log since the
    /// answer's message, a new message is made for the answer first, and
    /// the event says so. The log is stored where the interval has passed.
    pub open spec fn on_delta(self, delta: Seq<char>, now_ms: i64, seq: u64) -> StreamOutcome {
        let fresh = id_text("m"@, now_ms, seq);
        let s1 = if self.interrupted {
            StreamSessionView {
                thread: self.thread.with_message(
                    ChatMessageView {
                        id: fresh,
                        role: ChatRole::Assistant,
                        text: Seq::empty(),
                        created_at_ms: now_ms,
                    },
                ),
                message_id: fresh,
                interrupted: false,
                ..self
            }
        } else {
            self
        };
        let piece = ChatStreamEventView::piece(s1.profile_id, s1.chat_id, s1.message_id, delta);
        let event = if self.interrupted {
            piece.as_new(ChatRole::Assistant.spec_name(), now_ms)
        } else {
            piece
        };
        let s2 = StreamSessionView { accumulated: self.accumulated + delta, ..s1 };
        if throttle_open(self.last_persist_ms, now_ms) {
            StreamOutcome {
                session: StreamSessionView {
                    last_persist_ms: now_ms,
                    ..s2.with_answer_written()
                },
                effects: seq![StreamEffectView::Emit { event }, StreamEffectView::Persist],
                next: StreamNextView::Read,
            }
        } else {
            StreamOutcome {
                session: s2,
                effects: seq![StreamEffectView::Emit { event }],
                next: StreamNextView::Read,
            }
        }
    }

    /// The answer has ended. What has come in is written into the log and
    /// the log is stored, whatever the interval. Then the answer is
    /// decoded: a final answer replaces the text of the message and ends
    /// the send, a plain answer ends it, and a tool call goes to the tool
    /// loop.
    pub open spec fn on_complete(self) -> StreamOutcome {
        let s1 = self.with_answer_written();
        let call = tool_call_of(self.accumulated);
        let step = self.tools.on_reply(self.accumulated, call);
        let s2 = StreamSessionView { tools: step.0, ..s1 };
        match step.1 {
            LoopActionView::Answer { text } => StreamOutcome {
                session: if call is Some {
                    StreamSessionView { thread: s2.thread.with_text(s2.message_id, text), ..s2 }
                } else {
                    s2
                },
                effects: seq![StreamEffectView::Persist],
                next: StreamNextView::Done,
            },
            LoopActionView::Fetch { url } => StreamOutcome {
                session: s2,
                effects: seq![StreamEffectView::Persist],
                next: StreamNextView::Fetch { url },
            },
            LoopActionView::Run { cmd } => StreamOutcome {
                session: s2,
                effects: seq![StreamEffectView::Persist],
                next: StreamNextView::Run { cmd },
            },
            LoopActionView::Ask => StreamOutcome {
                session: StreamSessionView { accumulated: Seq::empty(), ..s2 },
                effects: seq![StreamEffectView::Persist],
                next: StreamNextView::Ask,
            },
            LoopActionView::Fail { error } => StreamOutcome {
                session: s2,
                effects: seq![
                    StreamEffectView::Persist,
                    StreamEffectView::Emit { event: s2.failure_event(error.message()) },
                ],
                next: StreamNextView::Done,
            },
        }
    }

    /// A line of the answer has come in and was decoded. A line that asks
    /// for nothing changes nothing. A line that cannot be read fails the
    /// send. Text is taken as a piece of the answer; the end mark is
    /// published after it and ends the answer.
    pub open spec fn on_line_decoded(self, decoded: StreamLineView, now_ms: i64, seq: u64) -> StreamOutcome {
        if !(self.tools.pending is Reply) {
            self.out_of_turn()
        } else {
            match decoded {
                StreamLineView::Skip => StreamOutcome {
                    session: self,
                    effects: Seq::empty(),
                    next: StreamNextView::Read,
                },
                StreamLineView::Invalid => self.on_backend_failed(bad_line_text()),
                StreamLineView::Chunk { delta, done } => {
                    let first = if delta.len() > 0 {
                        self.on_delta(delta, now_ms, seq)
                    } else {
                        StreamOutcome {
                            session: self,
                            effects: Seq::empty(),
                            next: StreamNextView::Read,
                        }
                    };
                    if done {
                        let s = first.session;
                        let last = s.on_complete();
                        StreamOutcome {
                            session: last.session,
                            effects: first.effects + seq![
                                StreamEffectView::Emit {
                                    event: ChatStreamEventView::end(
                                        s.profile_id,
                                        s.chat_id,
                                        s.message_id,
                                    ),
                                },
                            ] + last.effects,
                            next: last.next,
                        }
                    } else {
                        first
                    }
                },
            }
        }
    }

    /// A line of the answer has come in.
    pub open spec fn on_line(self, line: Seq<char>, now_ms: i64, seq: u64) -> StreamOutcome {
        self.on_line_decoded(stream_line_of(line), now_ms, seq)
    }

    /// Whether a decoded line makes a message: it carries text while the
    /// answer needs a message of its own.
    pub open spec fn makes_message(self, decoded: StreamLineView) -> bool {
        self.tools.pending is Reply && self.interrupted && (match decoded {
            StreamLineView::Chunk { delta, done } => delta.len() > 0,
            _ => false,
        })
    }

    /// The answer has ended without an end mark.
    pub open spec fn on_end_of_input(self) -> StreamOutcome {
        if self.tools.pending is Reply {
            self.on_complete()
        } else {
            self.out_of_turn()
        }
    }

    /// The backend has failed while an answer was due.
    pub open spec fn on_backend_failed(self, message: Seq<char>) -> StreamOutcome {
        if self.tools.pending is Reply {
            (StreamSessionView { tools: self.tools.on_backend_failed(message).0, ..self }).fail(
                message,
            )
        } else {
            self.out_of_turn()
        }
    }

    /// The page that the model asked for has been fetched, or not.
    pub open spec fn on_fetched(self, result: Result<Seq<char>, Seq<char>>) -> StreamOutcome {
        if self.tools.pending is Fetch {
            self.after_tool(self.tools.on_fetched(result))
        } else {
            self.out_of_turn()
        }
    }

    /// The command that the model asked for has run, or not. Its outcome
    /// goes into the log as a message of its own, the log is stored, and
    /// an event tells the observers of the new message.
    pub open spec fn on_ran(
        self,
        result: Result<Seq<char>, Seq<char>>,
        cwd: Seq<char>,
        now_ms: i64,
        seq: u64,
    ) -> StreamOutcome {
        match self.tools.pending_command() {
            Some(cmd) => {
                let out = tool_output_text(result);
                let id = id_text("t"@, now_ms, seq);
                let text = exec_log_text(cwd, cmd, out);
                let s1 = StreamSessionView {
                    thread: self.thread.with_message(
                        ChatMessageView { id, role: ChatRole::Tool, text, created_at_ms: now_ms },
                    ),
                    interrupted: true,
                    ..self
                };
                let after = s1.after_tool(self.tools.on_ran_output(out));
                StreamOutcome {
                    session: after.session,
                    effects: seq![
                        StreamEffectView::Persist,
                        StreamEffectView::Emit {
                            event: ChatStreamEventView {
                                profile_id: self.profile_id,
                                chat_id: self.chat_id,
                                message_id: id,
                                delta: text,
                                done: true,
                                error: None,
                                new_role: Some(ChatRole::Tool.spec_name()),
                                new_created_at_ms: Some(now_ms),
                            },
                        },
                    ] + after.effects,
                    next: after.next,
                }
            },
            None => self.out_of_turn(),
        }
    }
}

/// The streaming pipeline of one send.
pub struct StreamSession {
    profile_id: String,
    chat_id: String,
    thread: ChatThread,
    message_id: String,
    accumulated: String,
    last_persist_ms: i64,
    interrupted: bool,
    tools: ToolLoop,
}

impl View for StreamSession {
    type V = StreamSessionView;

    closed spec fn view(&self) -> StreamSessionView {
        StreamSessionView {
            profile_id: self.profile_id@,
            chat_id: self.chat_id@,
            thread: self.thread@,
            message_id: self.message_id@,
            accumulated: self.accumulated@,
            last_persist_ms: self.last_persist_ms,
            interrupted: self.interrupted,
            tools: self.tools@,
        }
    }
}

/// The view of a step.
pub open spec fn step_view(session: StreamSessionView, step: StreamStep) -> StreamOutcome {
    StreamOutcome { session, effects: step.effects.deep_view(), next: step.next@ }
}

impl StreamSession {
    /// The session of a send on `thread`, whose message `message_id` takes
    /// the answer. `now_ms` is the time of the call; the interval before
    /// the first store of the log runs from it.
    pub fn new(
        profile_id: String,
        chat_id: String,
        thread: ChatThread,
        message_id: String,
        dev_full_exec_auto: bool,
        auto_do_mode: bool,
        now_ms: i64,
    ) -> (r: Self)
        ensures
            r@ == StreamSessionView::initial(
                profile_id@,
                chat_id@,
                thread@,
                message_id@,
                dev_full_exec_auto,
                auto_do_mode,
                now_ms,
            ),
    {
        let tools = ToolLoop::new(dev_full_exec_auto, auto_do_mode, &thread);
        StreamSession {
            profile_id,
            chat_id,
            thread,
            message_id,
            accumulated: String::new(),
            last_persist_ms: now_ms,
            interrupted: false,
            tools,
        }
    }

    /// The log as it is to be stored.
    pub fn thread(&self) -> (r: &ChatThread)
        ensures
            r@ == self@.thread,
    {
        &self.thread
    }

    /// The message that takes the answer.
    pub fn message_id(&self) -> (r: &String)
        ensures
            r@ == self@.message_id,
    {
        &self.message_id
    }

    /// The answer as far as it has come in.
    pub fn accumulated(&self) -> (r: &String)
        ensures
            r@ == self@.accumulated,
    {
        &self.accumulated
    }

    /// How often the backend was asked so far.
    pub fn round_trips(&self) -> (r: usize)
        ensures
            r == self@.tools.round_trips,
            r <= crate::tool_loop::MAX_ROUND_TRIPS,
    {
        self.tools.round_trips()
    }

    /// The request to send on `Ask`: it streams.
    pub fn request(&self, model: &str) -> (r: OllamaChatReq)
        ensures
            r@ == (OllamaChatReqView {
                model: model@,
                messages: self@.tools.messages,
                stream: true,
            }),
    {
        self.tools.request(model, true)
    }

    fn out_of_turn(&self) -> (r: StreamStep)
        ensures
            step_view(self@, r) == self@.out_of_turn(),
    {
        let effects: Vec<StreamEffect> = Vec::new();
        assert(effects.deep_view() =~= Seq::empty());
        StreamStep { effects, next: StreamNext::OutOfTurn }
    }

    fn write_answer(&mut self)
        ensures
            final(self)@ == old(self)@.with_answer_written(),
    {
        if self.accumulated.as_str().unicode_len() > 0 {
            let text = self.accumulated.clone();
            self.thread.set_text(self.message_id.as_str(), text);
        }
    }

    fn failure_event(&self, message: String) -> (r: ChatStreamEvent)
        ensures
            r@ == self@.failure_event(message@),
    {
        ChatStreamEvent::failure(
            self.profile_id.as_str(),
            self.chat_id.as_str(),
            self.message_id.as_str(),
            message,
        )
    }

    fn after_tool(&mut self, action: LoopAction) -> (r: StreamStep)
        ensures
            step_view(final(self)@, r) == old(self)@.after_tool((old(self)@.tools, action@)),
    {
        let mut effects: Vec<StreamEffect> = Vec::new();
        match action {
            LoopAction::Ask => {
                self.accumulated = String::new();
                assert(effects.deep_view() =~= Seq::empty());
                StreamStep { effects, next: StreamNext::Ask }
            },
            LoopAction::Fail { error } => {
                let event = self.failure_event(error.message());
                effects.push(StreamEffect::Emit { event });
                assert(effects.deep_view() =~= seq![StreamEffectView::Emit { event: event@ }]);
                StreamStep { effects, next: StreamNext::Done }
            },
            _ => {
                assert(effects.deep_view() =~= Seq::empty());
                StreamStep { effects, next: StreamNext::OutOfTurn }
            },
        }
    }

    /// Starts the session: the first answer is asked for.
    pub fn start(&mut self) -> (r: StreamStep)
        ensures
            step_view(final(self)@, r) == old(self)@.on_start(),
    {
        let action = self.tools.start();
        match action {
            LoopAction::Fail { error: crate::tool_loop::LoopError::OutOfTurn } => self.out_of_turn(),
            _ => self.after_tool(action),
        }
    }

    fn delta(&mut self, delta: String, ids: &mut IdSource, now_ms: i64) -> (r: StreamStep)
        requires
            delta@.len() > 0,
        ensures
            step_view(final(self)@, r) == old(self)@.on_delta(delta@, now_ms, old(ids)@),
            final(ids)@ == (if old(self)@.interrupted {
                next_seq(old(ids)@)
            } else {
                old(ids)@
            }),
    {
        let mut effects: Vec<StreamEffect> = Vec::new();
        let was_interrupted = self.interrupted;
        let mut event;
        if was_interrupted {
            let fresh = ids.make("m", now_ms);
            self.thread.push_message(fresh.clone(), ChatRole::Assistant, String::new(), now_ms);
            self.message_id = fresh;
            self.interrupted = false;
            event = ChatStreamEvent::piece(
                self.profile_id.as_str(),
                self.chat_id.as_str(),
                self.message_id.as_str(),
                delta.as_str(),
            ).as_new(ChatRole::Assistant.name(), now_ms);
        } else {
            event = ChatStreamEvent::piece(
                self.profile_id.as_str(),
                self.chat_id.as_str(),
                self.message_id.as_str(),
                delta.as_str(),
            );
        }
        self.accumulated.append(delta.as_str());
        effects.push(StreamEffect::Emit { event });
        let elapsed: i128 = now_ms as i128 - self.last_persist_ms as i128;
        if elapsed >= PERSIST_INTERVAL_MS as i128 {
            self.write_answer();
            self.last_persist_ms = now_ms;
            effects.push(StreamEffect::Persist);
            assert(effects.deep_view() =~= seq![
                StreamEffectView::Emit { event: event@ },
                StreamEffectView::Persist,
            ]);
        } else {
            assert(effects.deep_view() =~= seq![StreamEffectView::Emit { event: event@ }]);
        }
        StreamStep { effects, next: StreamNext::Read }
    }

    fn complete(&mut self) -> (r: StreamStep)
        requires
            old(self)@.tools.pending is Reply,
        ensures
            step_view(final(self)@, r) == old(self)@.on_complete(),
    {
        let mut effects: Vec<StreamEffect> = Vec::new();
        self.write_answer();
        effects.push(StreamEffect::Persist);
        let reply = self.accumulated.clone();
        let call = decode(reply.as_str());
        let is_call = call.is_some();
        let action = self.tools.reply_decoded(reply, call);
        match action {
            LoopAction::Answer { text } => {
                if is_call {
                    self.thread.set_text(self.message_id.as_str(), text);
                }
                assert(effects.deep_view() =~= seq![StreamEffectView::Persist]);
                StreamStep { effects, next: StreamNext::Done }
            },
            LoopAction::Fetch { url } => {
                assert(effects.deep_view() =~= seq![StreamEffectView::Persist]);
                StreamStep { effects, next: StreamNext::Fetch { url } }
            },
            LoopAction::Run { cmd } => {
                assert(effects.deep_view() =~= seq![StreamEffectView::Persist]);
                StreamStep { effects, next: StreamNext::Run { cmd } }
            },
            LoopAction::Ask => {
                self.accumulated = String::new();
                assert(effects.deep_view() =~= seq![StreamEffectView::Persist]);
                StreamStep { effects, next: StreamNext::Ask }
            },
            LoopAction::Fail { error } => {
                let event = self.failure_event(error.message());
                effects.push(StreamEffect::Emit { event });
                assert(effects.deep_view() =~= seq![
                    StreamEffectView::Persist,
                    StreamEffectView::Emit { event: event@ },
                ]);
                StreamStep { effects, next: StreamNext::Done }
            },
        }
    }

    /// Takes a line of the answer that was decoded to `decoded`.
    pub fn line_decoded(&mut self, decoded: StreamLine, ids: &mut IdSource, now_ms: i64) -> (r:
        StreamStep)
        ensures
            step_view(final(self)@, r) == old(self)@.on_line_decoded(decoded@, now_ms, old(ids)@),
            final(ids)@ == (if old(self)@.makes_message(decoded@) {
                next_seq(old(ids)@)
            } else {
                old(ids)@
            }),
    {
        if !self.tools.awaits_reply() {
            return self.out_of_turn();
        }
        match decoded {
            StreamLine::Skip => {
                let effects: Vec<StreamEffect> = Vec::new();
                assert(effects.deep_view() =~= Seq::empty());
                StreamStep { effects, next: StreamNext::Read }
            },
            StreamLine::Invalid => self.backend_failed(OllamaError::BadStreamLine.message()),
            StreamLine::Chunk { delta, done } => {
                let mut first = if delta.as_str().unicode_len() > 0 {
                    self.delta(delta, ids, now_ms)
                } else {
                    let effects: Vec<StreamEffect> = Vec::new();
                    assert(effects.deep_view() =~= Seq::empty());
                    StreamStep { effects, next: StreamNext::Read }
                };
                if done {
                    let ghost first_effects = first.effects.deep_view();
                    let event = ChatStreamEvent::end(
                        self.profile_id.as_str(),
                        self.chat_id.as_str(),
                        self.message_id.as_str(),
                    );
                    let mut effects = first.effects;
                    effects.push(StreamEffect::Emit { event });
                    assert(effects.deep_view() =~= first_effects + seq![
                        StreamEffectView::Emit { event: event@ },
                    ]);
                    let mut last = self.complete();
                    append_effects(&mut effects, &mut last.effects);
                    StreamStep { effects, next: last.next }
                } else {
                    first
                }
            },
        }
    }

    /// Takes a line of the answer. A blank line, and one with neither text
    /// nor end mark, changes nothing. A line that cannot be read fails the
    /// send. Text is added to the answer and published; the end mark is
    /// published and ends the answer.
    pub fn line(&mut self, line: &str, ids: &mut IdSource, now_ms: i64) -> (r: StreamStep)
        ensures
            step_view(final(self)@, r) == old(self)@.on_line(line@, now_ms, old(ids)@),
            final(ids)@ == (if old(self)@.makes_message(stream_line_of(line@)) {
                next_seq(old(ids)@)
            } else {
                old(ids)@
            }),
    {
        let decoded = stream_line(line);
        self.line_decoded(decoded, ids, now_ms)
    }

    /// Takes the end of the answer where no end mark came.
    pub fn end_of_input(&mut self) -> (r: StreamStep)
        ensures
            step_view(final(self)@, r) == old(self)@.on_end_of_input(),
    {
        if !self.tools.awaits_reply() {
            return self.out_of_turn();
        }
        self.complete()
    }

    /// Takes a failure of the backend: the send fails with its message,
    /// and what has come in of the answer stays in the log.
    pub fn backend_failed(&mut self, message: String) -> (r: StreamStep)
        ensures
            step_view(final(self)@, r) == old(self)@.on_backend_failed(message@),
    {
        if !self.tools.awaits_reply() {
            return self.out_of_turn();
        }
        let _ = self.tools.backend_failed(message.clone());
        let event = self.failure_event(message);
        self.write_answer();
        let mut effects: Vec<StreamEffect> = Vec::new();
        effects.push(StreamEffect::Persist);
        effects.push(StreamEffect::Emit { event });
        assert(effects.deep_view() =~= seq![
            StreamEffectView::Persist,
            StreamEffectView::Emit { event: event@ },
        ]);
        StreamStep { effects, next: StreamNext::Done }
    }

    /// Takes the outcome of the fetch that the session asked for.
    pub fn fetched(&mut self, result: Result<String, String>) -> (r: StreamStep)
        ensures
            step_view(final(self)@, r) == old(self)@.on_fetched(result_view(result)),
    {
        if !self.tools.awaits_fetch() {
            return self.out_of_turn();
        }
        let action = self.tools.fetched(result);
        self.after_tool(action)
    }

    /// Takes the outcome of the command that the session asked for; `cwd`
    /// is the directory in which it ran.
    pub fn ran(
        &mut self,
        result: Result<String, String>,
        cwd: &str,
        ids: &mut IdSource,
        now_ms: i64,
    ) -> (r: StreamStep)
        ensures
            step_view(final(self)@, r) == old(self)@.on_ran(
                result_view(result),
                cwd@,
                now_ms,
                old(ids)@,
            ),
            final(ids)@ == (if old(self)@.tools.pending_command() is Some {
                next_seq(old(ids)@)
            } else {
                old(ids)@
            }),
    {
        let cmd = match self.tools.pending_command() {
            Some(cmd) => cmd,
            None => { return self.out_of_turn(); },
        };
        let out = tool_output(result);
        let id = ids.make("t", now_ms);
        let text = exec_log_message(cwd, cmd.as_str(), out.as_str());
        self.thread.push_message(id.clone(), ChatRole::Tool, text.clone(), now_ms);
        self.interrupted = true;
        let event = ChatStreamEvent {
            profile_id: self.profile_id.clone(),
            chat_id: self.chat_id.clone(),
            message_id: id,
            delta: text,
            done: true,
            error: None,
            new_role: Some(ChatRole::Tool.name()),
            new_created_at_ms: Some(now_ms),
        };
        let mut effects: Vec<StreamEffect> = Vec::new();
        effects.push(StreamEffect::Persist);
        effects.push(StreamEffect::Emit { event });
        assert(effects.deep_view() =~= seq![
            StreamEffectView::Persist,
            StreamEffectView::Emit { event: event@ },
        ]);
        let action = self.tools.ran_output(out.as_str());
        let mut after = self.after_tool(action);
        append_effects(&mut effects, &mut after.effects);
        StreamStep { effects, next: after.next }
    }
}

/// Moves the effects of `tail` to the end of `head`.
fn append_effects(head: &mut Vec<StreamEffect>, tail: &mut Vec<StreamEffect>)
    ensures
        final(head).deep_view() == old(head).deep_view() + old(tail).deep_view(),
{
    head.append(tail);
}

/// Every piece of an answer is published exactly once, as it came and
/// without the end mark, before anything is stored; and it is added to
/// what has come in.
pub proof fn law_piece_published_once(
    s: StreamSessionView,
    delta: Seq<char>,
    now_ms: i64,
    seq: u64,
)
    ensures
        ({
            let o = s.on_delta(delta, now_ms, seq);
            &&& o.effects.len() == 1 || o.effects.len() == 2
            &&& o.effects[0] matches StreamEffectView::Emit { event }
            &&& event.delta == delta
            &&& !event.done
            &&& event.error is None
            &&& event.message_id == o.session.message_id
            &&& o.effects.len() == 2 ==> o.effects[1] == StreamEffectView::Persist
            &&& o.session.accumulated == s.accumulated + delta
            &&& o.next is Read
        }),
{
}

/// While an answer comes in, the log is stored when the interval has
/// passed since the last store, and not before.
pub proof fn law_store_is_throttled(s: StreamSessionView, delta: Seq<char>, now_ms: i64, seq: u64)
    ensures
        ({
            let o = s.on_delta(delta, now_ms, seq);
            &&& (o.effects.len() == 2) == (now_ms - s.last_persist_ms >= PERSIST_INTERVAL_MS)
            &&& o.effects.len() == 2 ==> o.session.last_persist_ms == now_ms
            &&& o.effects.len() == 1 ==> o.session.last_persist_ms == s.last_persist_ms
            &&& o.effects.len() == 1 && !s.interrupted ==> o.session.thread == s.thread
        }),
{
}

/// What is stored is the whole answer so far: after a step that stores
/// the log while the answer comes in, the text of the answer's message
/// is what has come in.
pub proof fn law_store_writes_whole_answer(
    s: StreamSessionView,
    delta: Seq<char>,
    now_ms: i64,
    seq: u64,
)
    requires
        delta.len() > 0,
        !s.interrupted,
        has_message(s.thread.messages, s.message_id),
    ensures
        ({
            let o = s.on_delta(delta, now_ms, seq);
            o.effects.len() == 2 ==> message_text(o.session.thread.messages, o.session.message_id)
                == Some(o.session.accumulated)
        }),
{
    let o = s.on_delta(delta, now_ms, seq);
    if o.effects.len() == 2 {
        law_text_replacement(s.thread, s.message_id, s.accumulated + delta);
    }
}

/// The end mark of an answer is published as one event without text,
/// and the log is stored after it whatever the interval.
pub proof fn law_end_mark_published(s: StreamSessionView, line: Seq<char>, now_ms: i64, seq: u64)
    requires
        s.tools.pending is Reply,
        stream_line_of(line) == (StreamLineView::Chunk { delta: Seq::empty(), done: true }),
    ensures
        ({
            let o = s.on_line(line, now_ms, seq);
            &&& o.effects.len() >= 2
            &&& o.effects[0] == (StreamEffectView::Emit {
                event: ChatStreamEventView::end(s.profile_id, s.chat_id, s.message_id),
            })
            &&& o.effects[1] == StreamEffectView::Persist
            &&& !(o.next is Read)
        }),
{
}

/// An answer that is no tool call ends the send: the log is stored once
/// with the whole answer in its message, nothing more is published, and
/// the log has no message more or less than before.
pub proof fn law_plain_answer_is_stored(s: StreamSessionView)
    requires
        s.tools.pending is Reply,
        tool_call_of(s.accumulated) is None,
    ensures
        ({
            let o = s.on_complete();
            &&& o.next is Done
            &&& o.effects == seq![StreamEffectView::Persist]
            &&& o.session.thread == s.with_answer_written().thread
            &&& o.session.thread.messages.len() == s.thread.messages.len()
            &&& s.accumulated.len() > 0 && has_message(s.thread.messages, s.message_id)
                ==> message_text(o.session.thread.messages, s.message_id) == Some(s.accumulated)
        }),
{
    law_text_replacement(s.thread, s.message_id, s.accumulated);
}

/// A failure of the backend is told by one event with the end mark and
/// the error, after the log was stored with what had come in; nothing
/// that had come in is lost.
pub proof fn law_failure_keeps_partial_answer(s: StreamSessionView, message: Seq<char>)
    requires
        s.tools.pending is Reply,
    ensures
        ({
            let o = s.on_backend_failed(message);
            &&& o.next is Done
            &&& o.effects == seq![
                StreamEffectView::Persist,
                StreamEffectView::Emit {
                    event: ChatStreamEventView::failure(
                        s.profile_id,
                        s.chat_id,
                        s.message_id,
                        message,
                    ),
                },
            ]
            &&& o.session.thread == s.with_answer_written().thread
            &&& o.session.accumulated == s.accumulated
            &&& o.session.tools.pending is Closed
        }),
{
}

/// While shell commands may not run, an answer that asks for one starts
/// no command and leaves no record in the log: the log keeps its length,
/// and the request gains the answer and the refusal.
pub proof fn law_denied_exec_leaves_no_record(s: StreamSessionView, cmd: Seq<char>)
    requires
        s.tools.pending is Reply,
        !s.tools.full_exec,
        tool_call_of(s.accumulated) == Some(ToolCallView::Exec { cmd }),
    ensures
        ({
            let o = s.on_complete();
            &&& !(o.next is Run)
            &&& o.next is Ask || o.next is Done
            &&& o.session.thread == s.with_answer_written().thread
            &&& o.session.thread.messages.len() == s.thread.messages.len()
            &&& o.session.tools.messages == s.tools.messages + tool_round(
                s.accumulated,
                exec_denied_text(),
            )
            &&& !o.session.interrupted == !s.interrupted
        }),
{
}

/// A command that ran leaves exactly one record in the log, a message
/// with role `tool` at its end, and the next answer gets a message of
/// its own.
pub proof fn law_exec_leaves_one_record(
    s: StreamSessionView,
    result: Result<Seq<char>, Seq<char>>,
    cwd: Seq<char>,
    now_ms: i64,
    seq: u64,
)
    requires
        s.tools.pending_command() is Some,
    ensures
        ({
            let o = s.on_ran(result, cwd, now_ms, seq);
            &&& o.session.thread.messages.len() == s.thread.messages.len() + 1
            &&& o.session.thread.messages.last().role == ChatRole::Tool
            &&& o.session.thread.messages.last().id == id_text("t"@, now_ms, seq)
            &&& o.session.thread.messages.subrange(0, s.thread.messages.len() as int)
                == s.thread.messages
            &&& o.session.interrupted
            &&& o.effects[0] == StreamEffectView::Persist
            &&& o.effects[1] matches StreamEffectView::Emit { event }
            &&& event.new_role == Some(ChatRole::Tool.spec_name())
            &&& event.message_id == id_text("t"@, now_ms, seq)
        }),
{
}

/// The events among a list of effects, in their order.
pub open spec fn published(effects: Seq<StreamEffectView>) -> Seq<ChatStreamEventView>
    decreases effects.len(),
{
    if effects.len() == 0 {
        Seq::empty()
    } else {
        match effects.last() {
            StreamEffectView::Emit { event } => published(effects.drop_last()).push(event),
            StreamEffectView::Persist => published(effects.drop_last()),
        }
    }
}

/// The texts of `pieces`, one after the other.
pub open spec fn concatenated(pieces: Seq<Seq<char>>) -> Seq<char>
    decreases pieces.len(),
{
    if pieces.len() == 0 {
        Seq::empty()
    } else {
        concatenated(pieces.drop_last()) + pieces.last()
    }
}

/// The session after the pieces of an answer came in one after the other,
/// the piece `i` at the time `times[i]`, with the effects of all the
/// steps.
pub open spec fn after_pieces(
    s: StreamSessionView,
    pieces: Seq<Seq<char>>,
    times: Seq<i64>,
    seq: u64,
) -> StreamOutcome
    decreases pieces.len(),
{
    if pieces.len() == 0 {
        StreamOutcome { session: s, effects: Seq::empty(), next: StreamNextView::Read }
    } else {
        let before = after_pieces(s, pieces.drop_last(), times.drop_last(), seq);
        let step = before.session.on_delta(pieces.last(), times.last(), seq);
        StreamOutcome {
            session: step.session,
            effects: before.effects + step.effects,
            next: StreamNextView::Read,
        }
    }
}

/// The events of two lists of effects are those of the first, then those
/// of the second.
pub proof fn lemma_published_concat(a: Seq<StreamEffectView>, b: Seq<StreamEffectView>)
    ensures
        published(a + b) == published(a) + published(b),
    decreases b.len(),
{
    if b.len() == 0 {
    } else {
        assert((a + b).drop_last() =~= a + b.drop_last());
        lemma_published_concat(a, b.drop_last());
        match b.last() {
            StreamEffectView::Emit { event } => {},
            StreamEffectView::Persist => {},
        }
    }
}

/// The one event of a step that publishes a piece, whether the step
/// stores the log or not.
proof fn lemma_published_step(event: ChatStreamEventView)
    ensures
        published(seq![StreamEffectView::Emit { event }]) == seq![event],
        published(seq![StreamEffectView::Emit { event }, StreamEffectView::Persist]) == seq![
            event,
        ],
{
    reveal_with_fuel(published, 3);
}

/// A step that only stores the log publishes nothing.
proof fn lemma_published_store()
    ensures
        published(seq![StreamEffectView::Persist]) == Seq::<ChatStreamEventView>::empty(),
{
    reveal_with_fuel(published, 2);
}

/// However an answer is cut into pieces and whenever they come, each
/// piece is published by exactly one event, in the order of the pieces,
/// with its text and without the end mark, for the answer's message; and
/// what has come in is the pieces one after the other.
pub proof fn law_every_piece_published_once(
    s: StreamSessionView,
    pieces: Seq<Seq<char>>,
    times: Seq<i64>,
    seq: u64,
)
    requires
        !s.interrupted,
        times.len() == pieces.len(),
    ensures
        ({
            let o = after_pieces(s, pieces, times, seq);
            &&& published(o.effects).len() == pieces.len()
            &&& forall|i: int|
                0 <= i < pieces.len() ==> #[trigger] published(o.effects)[i]
                    == ChatStreamEventView::piece(
                    s.profile_id,
                    s.chat_id,
                    s.message_id,
                    pieces[i],
                )
            &&& o.session.accumulated == s.accumulated + concatenated(pieces)
            &&& o.session.message_id == s.message_id
            &&& o.session.profile_id == s.profile_id
            &&& o.session.chat_id == s.chat_id
            &&& o.session.tools == s.tools
            &&& !o.session.interrupted
            &&& o.session.thread.messages.len() == s.thread.messages.len()
            &&& has_message(o.session.thread.messages, s.message_id) == has_message(
                s.thread.messages,
                s.message_id,
            )
        }),
    decreases pieces.len(),
{
    if pieces.len() > 0 {
        let front = pieces.drop_last();
        law_every_piece_published_once(s, front, times.drop_last(), seq);
        let before = after_pieces(s, front, times.drop_last(), seq);
        let step = before.session.on_delta(pieces.last(), times.last(), seq);
        lemma_published_concat(before.effects, step.effects);
        let event = ChatStreamEventView::piece(
            s.profile_id,
            s.chat_id,
            s.message_id,
            pieces.last(),
        );
        assert(published(step.effects) == seq![event]) by {
            lemma_published_step(event);
        }
        law_text_replacement(
            before.session.thread,
            s.message_id,
            before.session.accumulated + pieces.last(),
        );
    }
}

/// An answer that came in pieces and is no tool call stands whole in its
/// message when the answer has ended, however much of it was stored on
/// the way.
pub proof fn law_streamed_answer_is_whole(
    s: StreamSessionView,
    pieces: Seq<Seq<char>>,
    times: Seq<i64>,
    seq: u64,
)
    requires
        !s.interrupted,
        s.tools.pending is Reply,
        s.accumulated.len() == 0,
        has_message(s.thread.messages, s.message_id),
        times.len() == pieces.len(),
        concatenated(pieces).len() > 0,
        tool_call_of(concatenated(pieces)) is None,
    ensures
        ({
            let end = after_pieces(s, pieces, times, seq).session.on_complete();
            &&& end.next is Done
            &&& published(end.effects).len() == 0
            &&& message_text(end.session.thread.messages, s.message_id) == Some(
                concatenated(pieces),
            )
            &&& end.session.thread.messages.len() == s.thread.messages.len()
        }),
{
    law_every_piece_published_once(s, pieces, times, seq);
    let mid = after_pieces(s, pieces, times, seq).session;
    law_plain_answer_is_stored(mid);
    lemma_published_store();
}

/// The record of a command never takes the identifier of an answer: it
/// differs from the identifier of the message that was taking the answer
/// when the command ran, and from that of the message that is made for
/// the next answer.
pub proof fn law_tool_record_has_its_own_id(
    s: StreamSessionView,
    result: Result<Seq<char>, Seq<char>>,
    cwd: Seq<char>,
    ran_ms: i64,
    ran_seq: u64,
    answer_ms: i64,
    answer_seq: u64,
    delta: Seq<char>,
    next_ms: i64,
    next_seq: u64,
)
    requires
        s.tools.pending_command() is Some,
        s.message_id == id_text("m"@, answer_ms, answer_seq),
    ensures
        ({
            let ran = s.on_ran(result, cwd, ran_ms, ran_seq);
            let record = ran.session.thread.messages.last();
            let next = ran.session.on_delta(delta, next_ms, next_seq);
            &&& record.role == ChatRole::Tool
            &&& record.id != s.message_id
            &&& ran.session.message_id == s.message_id
            &&& next.session.message_id == id_text("m"@, next_ms, next_seq)
            &&& record.id != next.session.message_id
        }),
{
    law_tool_and_message_ids_differ(ran_ms, ran_seq, answer_ms, answer_seq);
    law_tool_and_message_ids_differ(ran_ms, ran_seq, next_ms, next_seq);
}

} // verus!
