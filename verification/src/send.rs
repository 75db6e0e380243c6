//! A send, from its registration to the stored answer. The caller loads and
//! stores the index and the log and talks to the backend; the steps here
//! decide what is written and when the conversation is free again.

use crate::chats::{
    chat_position, has_chat, ChatError, ChatIndex, ChatIndexView, ChatMessageView, ChatRole,
    ChatSendResult, ChatSendStreamResult, ChatThread, ChatThreadView, ChatView,
};
use crate::gate::{pair_key, InflightRegistry, Key, WorkerLockTable};
use crate::ids::{id_text, law_ids_differ, next_seq, IdSource};
use crate::tool_loop::{LoopError, LoopErrorView, ToolLoop, ToolLoopView};
use vstd::prelude::*;
use vstd::string::*;

verus! {

/// The state that all sends of a process share: who is generating, the
/// lock slots of the workers, and the source of identifiers.
pub struct Orchestrator {
    pub inflight: InflightRegistry,
    pub workers: WorkerLockTable,
    pub ids: IdSource,
}

impl Orchestrator {
    /// The state of a process in which nothing has been sent yet.
    pub fn new() -> (r: Self)
        ensures
            r.inflight@ == Set::<Key>::empty(),
            r.workers@ == Seq::<Key>::empty(),
            r.ids@ == 1,
    {
        Orchestrator {
            inflight: InflightRegistry::new(),
            workers: WorkerLockTable::new(),
            ids: IdSource::new(),
        }
    }
}

/// What the registry does on a send: the registry after it, and whether
/// the send may go on.
pub open spec fn registry_entry(inflight: Set<Key>, key: Key) -> (Set<Key>, bool) {
    if inflight.contains(key) {
        (inflight, false)
    } else {
        (inflight.insert(key), true)
    }
}

/// The leave to go on with a send: it is made when the conversation is
/// registered, by `begin_send` alone, and is used up when the send ends.
/// The steps of a send take it, so none of them can run for a send that
/// was refused.
#[derive(Debug)]
pub struct SendPermit {
    profile_id: String,
    chat_id: String,
}

impl View for SendPermit {
    type V = Key;

    /// The pair of profile and conversation that the permit is for.
    closed spec fn view(&self) -> Key {
        pair_key(self.profile_id@, self.chat_id@)
    }
}

impl SendPermit {
    /// The profile of the send.
    pub fn profile_id(&self) -> (r: &String)
        ensures
            r@ == self@.0,
    {
        &self.profile_id
    }

    /// The conversation of the send.
    pub fn chat_id(&self) -> (r: &String)
        ensures
            r@ == self@.1,
    {
        &self.chat_id
    }
}

/// Opens a send: registers the conversation and gives the permit for it,
/// or refuses with `Busy` where a generation is running for it. Nothing
/// but the registry is touched, and a refused send leaves that as it was
/// too: index, log and identifiers are out of its reach, and without a
/// permit no later step of the send can run.
pub fn begin_send(ctx: &mut Orchestrator, profile_id: &str, chat_id: &str) -> (r: Result<
    SendPermit,
    ChatError,
>)
    ensures
        r is Ok == registry_entry(old(ctx).inflight@, pair_key(profile_id@, chat_id@)).1,
        r matches Ok(permit) ==> permit@ == pair_key(profile_id@, chat_id@),
        r matches Err(e) ==> e == ChatError::Busy && final(ctx).inflight@ == old(ctx).inflight@,
        final(ctx).inflight@ == registry_entry(
            old(ctx).inflight@,
            pair_key(profile_id@, chat_id@),
        ).0,
        final(ctx).workers@ == old(ctx).workers@,
        final(ctx).ids@ == old(ctx).ids@,
{
    if ctx.inflight.acquire(profile_id, chat_id) {
        Ok(
            SendPermit {
                profile_id: String::from_str(profile_id),
                chat_id: String::from_str(chat_id),
            },
        )
    } else {
        Err(ChatError::Busy)
    }
}

/// Closes a send and uses up its permit: the conversation is free again.
/// It is the way out of a send that ends before its last step.
pub fn end_send(ctx: &mut Orchestrator, permit: SendPermit)
    ensures
        final(ctx).inflight@ == old(ctx).inflight@.remove(permit@),
        final(ctx).workers@ == old(ctx).workers@,
        final(ctx).ids@ == old(ctx).ids@,
{
    ctx.inflight.release(permit.profile_id.as_str(), permit.chat_id.as_str());
}

/// Of two sends for one conversation with no end between them, the first
/// goes on where the conversation is free, and the second is refused and
/// leaves the registry as the first left it. Only the first gets a
/// permit, and the steps that write to index and log take one, so the
/// second writes nothing.
pub proof fn law_single_flight(inflight: Set<Key>, key: Key)
    ensures
        ({
            let first = registry_entry(inflight, key);
            let second = registry_entry(first.0, key);
            &&& first.1 == !inflight.contains(key)
            &&& !second.1
            &&& second.0 == first.0
            &&& first.0.contains(key)
        }),
{
}

/// A send for another conversation is not held up: the entry of one key
/// says nothing of another.
pub proof fn law_conversations_independent(inflight: Set<Key>, key: Key, other: Key)
    requires
        key != other,
    ensures
        registry_entry(registry_entry(inflight, key).0, other).1 == registry_entry(inflight, other).1,
{
}

/// After the end of a send its conversation is free again, whatever it
/// was before.
pub proof fn law_end_frees_conversation(inflight: Set<Key>, key: Key)
    ensures
        registry_entry(inflight.remove(key), key).1,
        inflight.remove(key).remove(key) == inflight.remove(key),
{
}

/// The index with the time of the last change of one conversation set.
pub open spec fn touched(idx: ChatIndexView, at: int, now_ms: i64) -> ChatIndexView {
    ChatIndexView {
        chats: idx.chats.update(at, ChatView { updated_at_ms: now_ms, ..idx.chats[at] }),
        ..idx
    }
}

/// The message that a send adds for the user.
pub open spec fn user_message(text: Seq<char>, now_ms: i64, seq: u64) -> ChatMessageView {
    ChatMessageView { id: id_text("m"@, now_ms, seq), role: ChatRole::User, text, created_at_ms: now_ms }
}

/// The message that a send adds for the assistant.
pub open spec fn assistant_message(text: Seq<char>, now_ms: i64, seq: u64) -> ChatMessageView {
    ChatMessageView {
        id: id_text("m"@, now_ms, seq),
        role: ChatRole::Assistant,
        text,
        created_at_ms: now_ms,
    }
}

/// The text of the message that stands in the log for a failed send.
pub open spec fn error_text(error: LoopErrorView) -> Seq<char> {
    "[error] "@ + error.message()
}

/// The worker of a conversation: the one it names, else `default`.
pub open spec fn worker_of(chat: ChatView) -> Seq<char> {
    match chat.worker {
        Some(w) => w,
        None => "default"@,
    }
}

fn touch(idx: &mut ChatIndex, at: usize, now_ms: i64)
    requires
        at < old(idx)@.chats.len(),
    ensures
        final(idx)@ == touched(old(idx)@, at as int, now_ms),
{
    idx.chats[at].updated_at_ms = now_ms;
    assert(idx@.chats =~= touched(old(idx)@, at as int, now_ms).chats);
}

/// The first half of a blocking send, after the send was opened and index
/// and log were loaded. It takes the permit of the send, so it runs only
/// for the one send that was let in. Where the index does not know the
/// conversation, the send is refused with `NotFound`, nothing is written,
/// the permit is used up and the conversation is free again. Else the
/// user's message goes into the log, the index notes the time, and the
/// permit comes back with the tool loop for the answer; the caller stores
/// log and index before it asks the backend.
pub fn chat_send(
    ctx: &mut Orchestrator,
    permit: SendPermit,
    idx: &mut ChatIndex,
    thread: &mut ChatThread,
    text: String,
    dev_full_exec_auto: bool,
    auto_do_mode: bool,
    now_ms: i64,
) -> (r: Result<(SendPermit, ToolLoop), ChatError>)
    ensures
        r is Ok == has_chat(old(idx)@.chats, permit@.1),
        final(ctx).workers@ == old(ctx).workers@,
        match r {
            Err(e) => {
                &&& e == ChatError::NotFound
                &&& final(idx)@ == old(idx)@
                &&& final(thread)@ == old(thread)@
                &&& final(ctx).ids@ == old(ctx).ids@
                &&& final(ctx).inflight@ == old(ctx).inflight@.remove(permit@)
            },
            Ok(opened) => {
                &&& opened.0@ == permit@
                &&& final(thread)@ == old(thread)@.with_message(
                    user_message(text@, now_ms, old(ctx).ids@),
                )
                &&& final(idx)@ == touched(
                    old(idx)@,
                    chat_position(old(idx)@.chats, permit@.1),
                    now_ms,
                )
                &&& final(ctx).ids@ == next_seq(old(ctx).ids@)
                &&& final(ctx).inflight@ == old(ctx).inflight@
                &&& opened.1@ == ToolLoopView::initial(
                    dev_full_exec_auto,
                    auto_do_mode,
                    final(thread)@.messages,
                )
            },
        },
{
    let pos = match idx.position(permit.chat_id.as_str()) {
        Some(pos) => pos,
        None => {
            end_send(ctx, permit);
            return Err(ChatError::NotFound);
        },
    };
    let id = ctx.ids.make("m", now_ms);
    thread.push_message(id, ChatRole::User, text, now_ms);
    touch(idx, pos, now_ms);
    let tools = ToolLoop::new(dev_full_exec_auto, auto_do_mode, thread);
    Ok((permit, tools))
}

/// The view of the outcome of a tool loop.
pub open spec fn outcome_view(outcome: Result<String, LoopError>) -> Result<
    Seq<char>,
    LoopErrorView,
> {
    match outcome {
        Ok(text) => Ok(text@),
        Err(e) => Err(e@),
    }
}

/// The log after a blocking send: the answer, or the error in its place,
/// stands at its end as the assistant's message.
pub open spec fn answered(
    thread: ChatThreadView,
    outcome: Result<Seq<char>, LoopErrorView>,
    now_ms: i64,
    seq: u64,
) -> ChatThreadView {
    thread.with_message(
        assistant_message(
            match outcome {
                Ok(text) => text,
                Err(e) => error_text(e),
            },
            now_ms,
            seq,
        ),
    )
}

/// The second half of a blocking send, when the tool loop has ended. The
/// answer goes into the log as the assistant's message; a failure goes
/// there too, as a message that starts with `[error] `. The index notes
/// the time of an answer. The permit is used up and the conversation is
/// free again in either case. The caller stores the log, and the index
/// after an answer.
pub fn chat_send_finish(
    ctx: &mut Orchestrator,
    permit: SendPermit,
    idx: &mut ChatIndex,
    thread: &mut ChatThread,
    outcome: Result<String, LoopError>,
    now_ms: i64,
) -> (r: ChatSendResult)
    ensures
        final(thread)@ == answered(old(thread)@, outcome_view(outcome), now_ms, old(ctx).ids@),
        r.thread@ == final(thread)@,
        final(idx)@ == (if outcome is Ok && has_chat(old(idx)@.chats, permit@.1) {
            touched(old(idx)@, chat_position(old(idx)@.chats, permit@.1), now_ms)
        } else {
            old(idx)@
        }),
        final(ctx).inflight@ == old(ctx).inflight@.remove(permit@),
        final(ctx).ids@ == next_seq(old(ctx).ids@),
        final(ctx).workers@ == old(ctx).workers@,
{
    let id = ctx.ids.make("m", now_ms);
    match outcome {
        Ok(reply) => {
            thread.push_message(id, ChatRole::Assistant, reply, now_ms);
            match idx.position(permit.chat_id.as_str()) {
                Some(pos) => {
                    touch(idx, pos, now_ms);
                },
                None => {},
            }
        },
        Err(e) => {
            let mut text = String::from_str("[error] ");
            let message = e.message();
            text.append(message.as_str());
            thread.push_message(id, ChatRole::Assistant, text, now_ms);
        },
    }
    end_send(ctx, permit);
    ChatSendResult { thread: thread.clone() }
}

/// The log after the opening of a streaming send: the user's message, and
/// the empty message of the assistant that will take the answer.
pub open spec fn stream_opened(thread: ChatThreadView, text: Seq<char>, now_ms: i64, seq: u64) -> ChatThreadView {
    thread.with_message(user_message(text, now_ms, seq)).with_message(
        assistant_message(Seq::empty(), now_ms, next_seq(seq)),
    )
}

/// The opening of a streaming send, after the send was opened and index
/// and log were loaded. It takes the permit of the send, so it runs only
/// for the one send that was let in. Where the index does not know the
/// conversation, the send is refused with `NotFound`, nothing is written,
/// the permit is used up and the conversation is free again. Else the
/// user's message and an empty message for the answer go into the log,
/// the index notes the time, and the permit comes back with the result.
/// The caller stores both, answers its own caller with the result, lets
/// the worker stream the answer into the empty message, and ends the
/// send with the permit when the worker is done.
pub fn chat_send_stream(
    ctx: &mut Orchestrator,
    permit: SendPermit,
    idx: &mut ChatIndex,
    thread: &mut ChatThread,
    text: String,
    now_ms: i64,
) -> (r: Result<(SendPermit, ChatSendStreamResult), ChatError>)
    ensures
        r is Ok == has_chat(old(idx)@.chats, permit@.1),
        final(ctx).workers@ == old(ctx).workers@,
        match r {
            Err(e) => {
                &&& e == ChatError::NotFound
                &&& final(idx)@ == old(idx)@
                &&& final(thread)@ == old(thread)@
                &&& final(ctx).ids@ == old(ctx).ids@
                &&& final(ctx).inflight@ == old(ctx).inflight@.remove(permit@)
            },
            Ok(opened) => {
                &&& opened.0@ == permit@
                &&& final(thread)@ == stream_opened(old(thread)@, text@, now_ms, old(ctx).ids@)
                &&& opened.1.thread@ == final(thread)@
                &&& opened.1.assistant_message_id@ == id_text(
                    "m"@,
                    now_ms,
                    next_seq(old(ctx).ids@),
                )
                &&& opened.1.worker@ == worker_of(
                    old(idx)@.chats[chat_position(old(idx)@.chats, permit@.1)],
                )
                &&& final(idx)@ == touched(
                    old(idx)@,
                    chat_position(old(idx)@.chats, permit@.1),
                    now_ms,
                )
                &&& final(ctx).ids@ == next_seq(next_seq(old(ctx).ids@))
                &&& final(ctx).inflight@ == old(ctx).inflight@
            },
        },
{
    let pos = match idx.position(permit.chat_id.as_str()) {
        Some(pos) => pos,
        None => {
            end_send(ctx, permit);
            return Err(ChatError::NotFound);
        },
    };
    let worker = match &idx.chats[pos].worker {
        Some(w) => w.clone(),
        None => String::from_str("default"),
    };
    let user_id = ctx.ids.make("m", now_ms);
    thread.push_message(user_id, ChatRole::User, text, now_ms);
    let assistant_message_id = ctx.ids.make("m", now_ms);
    thread.push_message(assistant_message_id.clone(), ChatRole::Assistant, String::new(), now_ms);
    touch(idx, pos, now_ms);
    Ok((permit, ChatSendStreamResult { thread: thread.clone(), assistant_message_id, worker }))
}

/// Empties the log of a conversation and frees it, whatever was
/// running. The caller stores the empty log.
pub fn chat_reset(ctx: &mut Orchestrator, profile_id: &str, chat_id: String) -> (r: ChatThread)
    ensures
        r@ == (ChatThreadView { version: 1, chat_id: chat_id@, messages: Seq::empty() }),
        final(ctx).inflight@ == old(ctx).inflight@.remove(pair_key(profile_id@, chat_id@)),
        final(ctx).workers@ == old(ctx).workers@,
        final(ctx).ids@ == old(ctx).ids@,
{
    ctx.inflight.release(profile_id, chat_id.as_str());
    ChatThread::new(chat_id)
}

/// A blocking send adds two messages to the log and leaves the rest as it
/// was: the user's text, and after it the assistant's answer, or the
/// error in its place.
pub proof fn law_send_adds_two_messages(
    thread: ChatThreadView,
    text: Seq<char>,
    outcome: Result<Seq<char>, LoopErrorView>,
    sent_ms: i64,
    answered_ms: i64,
    seq: u64,
)
    ensures
        ({
            let n = thread.messages.len() as int;
            let opened = thread.with_message(user_message(text, sent_ms, seq));
            let closed = answered(opened, outcome, answered_ms, next_seq(seq));
            &&& closed.messages.len() == n + 2
            &&& closed.messages.subrange(0, n) == thread.messages
            &&& closed.messages[n].role == ChatRole::User
            &&& closed.messages[n].text == text
            &&& closed.messages[n + 1].role == ChatRole::Assistant
            &&& closed.messages[n + 1].text == (match outcome {
                Ok(answer) => answer,
                Err(e) => error_text(e),
            })
            &&& closed.messages[n].id != closed.messages[n + 1].id
        }),
{
    law_ids_differ("m"@, sent_ms, seq, answered_ms, next_seq(seq));
}

} // verus!
