//! Conversations, their message logs, and the index of conversations of one
//! profile.

use crate::text::{clone_optional, non_blank, normalize_optional, str_eq, trim, trimmed};
use vstd::prelude::*;
use vstd::string::*;

verus! {

/// Who wrote a message of the log.
#[derive(Debug, Clone, Copy, PartialEq, Eq, Structural)]
pub enum ChatRole {
    User,
    Assistant,
    Tool,
}

impl ChatRole {
    /// The role's name as observers and stored documents spell it.
    pub open spec fn spec_name(self) -> Seq<char> {
        match self {
            ChatRole::User => "user"@,
            ChatRole::Assistant => "assistant"@,
            ChatRole::Tool => "tool"@,
        }
    }

    /// The role's name as observers and stored documents spell it.
    pub fn name(self) -> (r: String)
        ensures
            r@ == self.spec_name(),
    {
        match self {
            ChatRole::User => String::from_str("user"),
            ChatRole::Assistant => String::from_str("assistant"),
            ChatRole::Tool => String::from_str("tool"),
        }
    }
}

/// One message of a log.
#[derive(Debug)]
pub struct ChatMessage {
    pub id: String,
    pub role: ChatRole,
    pub text: String,
    pub created_at_ms: i64,
}

/// `ChatMessage` with its texts as sequences of characters.
pub ghost struct ChatMessageView {
    pub id: Seq<char>,
    pub role: ChatRole,
    pub text: Seq<char>,
    pub created_at_ms: i64,
}

impl View for ChatMessage {
    type V = ChatMessageView;

    open spec fn view(&self) -> ChatMessageView {
        ChatMessageView {
            id: self.id@,
            role: self.role,
            text: self.text@,
            created_at_ms: self.created_at_ms,
        }
    }
}

impl DeepView for ChatMessage {
    type V = ChatMessageView;

    open spec fn deep_view(&self) -> ChatMessageView {
        self@
    }
}

impl Clone for ChatMessage {
    fn clone(&self) -> (r: Self)
        ensures
            r == *self,
    {
        ChatMessage {
            id: self.id.clone(),
            role: self.role,
            text: self.text.clone(),
            created_at_ms: self.created_at_ms,
        }
    }
}

/// The message log of one conversation.
#[derive(Debug)]
pub struct ChatThread {
    pub version: i32,
    pub chat_id: String,
    pub messages: Vec<ChatMessage>,
}

/// `ChatThread` as a mathematical value.
pub ghost struct ChatThreadView {
    pub version: i32,
    pub chat_id: Seq<char>,
    pub messages: Seq<ChatMessageView>,
}

impl View for ChatThread {
    type V = ChatThreadView;

    open spec fn view(&self) -> ChatThreadView {
        ChatThreadView {
            version: self.version,
            chat_id: self.chat_id@,
            messages: self.messages.deep_view(),
        }
    }
}

impl Clone for ChatThread {
    fn clone(&self) -> (r: Self)
        ensures
            r@ == self@,
    {
        let mut messages: Vec<ChatMessage> = Vec::new();
        let n = self.messages.len();
        let mut i: usize = 0;
        while i < n
            invariant
                n == self.messages@.len(),
                i <= n,
                messages.deep_view() == self.messages.deep_view().subrange(0, i as int),
            decreases n - i,
        {
            let ghost before = messages.deep_view();
            let m = self.messages[i].clone();
            messages.push(m);
            assert(messages.deep_view() =~= before.push(m@));
            i = i + 1;
        }
        assert(messages.deep_view() =~= self.messages.deep_view());
        ChatThread { version: self.version, chat_id: self.chat_id.clone(), messages }
    }
}

/// The first index at which `id` stands among the message ids, if any.
pub open spec fn first_message_with(
    messages: Seq<ChatMessageView>,
    id: Seq<char>,
    at: Option<int>,
) -> bool {
    match at {
        Some(i) => 0 <= i < messages.len() && messages[i].id == id && forall|j: int|
            0 <= j < i ==> messages[j].id != id,
        None => forall|j: int| 0 <= j < messages.len() ==> messages[j].id != id,
    }
}

/// Whether some message of the log has the id.
pub open spec fn has_message(messages: Seq<ChatMessageView>, id: Seq<char>) -> bool {
    exists|j: int| 0 <= j < messages.len() && messages[j].id == id
}

/// The text of the newest message with role `user`, if there is one.
pub open spec fn newest_user_text(messages: Seq<ChatMessageView>) -> Option<Seq<char>>
    decreases messages.len(),
{
    if messages.len() == 0 {
        None
    } else if messages.last().role == ChatRole::User {
        Some(messages.last().text)
    } else {
        newest_user_text(messages.drop_last())
    }
}

impl ChatThreadView {
    /// No identifier occurs twice in the log.
    pub open spec fn ids_unique(self) -> bool {
        forall|i: int, j: int|
            0 <= i < j < self.messages.len() ==> self.messages[i].id != self.messages[j].id
    }

    /// Creation times never go down along the log.
    pub open spec fn times_ordered(self) -> bool {
        forall|i: int, j: int|
            0 <= i <= j < self.messages.len() ==> self.messages[i].created_at_ms
                <= self.messages[j].created_at_ms
    }

    /// The invariant of a message log: unique identifiers, in creation
    /// order.
    pub open spec fn well_formed(self) -> bool {
        self.ids_unique() && self.times_ordered()
    }

    /// The log with the text of its first message `id` replaced; unchanged
    /// where no message has that id.
    pub open spec fn with_text(self, id: Seq<char>, text: Seq<char>) -> ChatThreadView {
        ChatThreadView {
            messages: Seq::new(
                self.messages.len(),
                |i: int|
                    if self.messages[i].id == id && forall|j: int|
                        0 <= j < i ==> self.messages[j].id != id {
                        ChatMessageView { text: text, ..self.messages[i] }
                    } else {
                        self.messages[i]
                    },
            ),
            ..self
        }
    }

    /// The log with one more message at its end.
    pub open spec fn with_message(self, m: ChatMessageView) -> ChatThreadView {
        ChatThreadView { messages: self.messages.push(m), ..self }
    }
}

impl ChatThread {
    /// An empty log for the conversation `chat_id`.
    pub fn new(chat_id: String) -> (r: Self)
        ensures
            r@ == (ChatThreadView { version: 1, chat_id: chat_id@, messages: Seq::empty() }),
            r@.well_formed(),
    {
        let r = ChatThread { version: 1, chat_id, messages: Vec::new() };
        assert(r.messages.deep_view() =~= Seq::empty());
        r
    }

    /// Appends a message. The log stays well formed when the id is new to
    /// it and the time is not before that of its last message.
    pub fn push_message(&mut self, id: String, role: ChatRole, text: String, created_at_ms: i64)
        ensures
            final(self)@ == old(self)@.with_message(
                ChatMessageView { id: id@, role, text: text@, created_at_ms },
            ),
            old(self)@.well_formed() && !has_message(old(self)@.messages, id@) && (old(
                self,
            )@.messages.len() > 0 ==> old(self)@.messages.last().created_at_ms <= created_at_ms)
                ==> final(self)@.well_formed(),
    {
        let ghost before = self.messages.deep_view();
        self.messages.push(ChatMessage { id, role, text, created_at_ms });
        assert(self.messages.deep_view() =~= before.push(
            ChatMessageView { id: id@, role, text: text@, created_at_ms },
        ));
    }

    /// The index of the first message with the id.
    pub fn position(&self, id: &str) -> (r: Option<usize>)
        ensures
            first_message_with(
                self@.messages,
                id@,
                match r {
                    Some(i) => Some(i as int),
                    None => None,
                },
            ),
    {
        let n = self.messages.len();
        let mut i: usize = 0;
        while i < n
            invariant
                n == self.messages@.len(),
                i <= n,
                forall|j: int| 0 <= j < i ==> self@.messages[j].id != id@,
            decreases n - i,
        {
            if str_eq(self.messages[i].id.as_str(), id) {
                return Some(i);
            }
            i = i + 1;
        }
        None
    }

    /// Replaces the text of the first message with the id. Returns whether
    /// there is such a message; the log is unchanged where there is none.
    pub fn set_text(&mut self, id: &str, text: String) -> (found: bool)
        ensures
            found == has_message(old(self)@.messages, id@),
            final(self)@ == old(self)@.with_text(id@, text@),
            old(self)@.well_formed() ==> final(self)@.well_formed(),
    {
        match self.position(id) {
            Some(i) => {
                self.messages[i].text = text;
                assert(self@.messages =~= old(self)@.with_text(id@, text@).messages);
                true
            },
            None => {
                assert(self@.messages =~= old(self)@.with_text(id@, text@).messages);
                false
            },
        }
    }

    /// The text of the newest message with role `user`.
    pub fn last_user_text(&self) -> (r: Option<String>)
        ensures
            r.deep_view() == newest_user_text(self@.messages),
    {
        let mut i: usize = self.messages.len();
        assert(self@.messages.subrange(0, i as int) =~= self@.messages);
        while i > 0
            invariant
                i <= self.messages@.len(),
                newest_user_text(self@.messages) == newest_user_text(
                    self@.messages.subrange(0, i as int),
                ),
            decreases i,
        {
            assert(self@.messages.subrange(0, i as int).drop_last() =~= self@.messages.subrange(
                0,
                i - 1,
            ));
            i = i - 1;
            if self.messages[i].role == ChatRole::User {
                return Some(self.messages[i].text.clone());
            }
        }
        None
    }
}

/// The index of the first message with the id; only meaningful where
/// `has_message` holds.
pub open spec fn message_position(messages: Seq<ChatMessageView>, id: Seq<char>) -> int {
    choose|i: int| first_message_with(messages, id, Some(i))
}

/// The text of the first message with the id, if there is one.
pub open spec fn message_text(messages: Seq<ChatMessageView>, id: Seq<char>) -> Option<
    Seq<char>,
> {
    if has_message(messages, id) {
        Some(messages[message_position(messages, id)].text)
    } else {
        None
    }
}

/// Among the messages with an id, one comes first.
pub proof fn lemma_first_message_exists(messages: Seq<ChatMessageView>, id: Seq<char>)
    requires
        has_message(messages, id),
    ensures
        first_message_with(messages, id, Some(message_position(messages, id))),
    decreases messages.len(),
{
    let j = choose|j: int| 0 <= j < messages.len() && messages[j].id == id;
    if exists|k: int| 0 <= k < j && messages[k].id == id {
        let front = messages.subrange(0, j);
        let k = choose|k: int| 0 <= k < j && messages[k].id == id;
        assert(front[k].id == id);
        lemma_first_message_exists(front, id);
        let f = message_position(front, id);
        assert forall|i: int| 0 <= i < f implies messages[i].id != id by {
            assert(front[i].id != id);
        }
        assert(first_message_with(messages, id, Some(f)));
    } else {
        assert(first_message_with(messages, id, Some(j)));
    }
}

/// A message with a new identifier and a time that is not before that of
/// the last message keeps a log well formed.
pub proof fn law_append_keeps_log_well_formed(thread: ChatThreadView, m: ChatMessageView)
    requires
        thread.well_formed(),
        !has_message(thread.messages, m.id),
        thread.messages.len() > 0 ==> thread.messages.last().created_at_ms <= m.created_at_ms,
    ensures
        thread.with_message(m).well_formed(),
{
}

/// Replacing the text of a message changes nothing else: the log keeps
/// its length, every message keeps identifier, role and time, every
/// other message keeps its text, and a well-formed log stays well formed.
/// Where the log has the message, its text is the new one afterwards.
pub proof fn law_text_replacement(thread: ChatThreadView, id: Seq<char>, text: Seq<char>)
    ensures
        thread.with_text(id, text).messages.len() == thread.messages.len(),
        forall|i: int|
            0 <= i < thread.messages.len() ==> {
                let before = thread.messages[i];
                let after = #[trigger] thread.with_text(id, text).messages[i];
                &&& after.id == before.id
                &&& after.role == before.role
                &&& after.created_at_ms == before.created_at_ms
                &&& before.id != id ==> after == before
            },
        thread.well_formed() ==> thread.with_text(id, text).well_formed(),
        has_message(thread.messages, id) == has_message(thread.with_text(id, text).messages, id),
        has_message(thread.messages, id) ==> message_text(thread.with_text(id, text).messages, id)
            == Some(text),
        !has_message(thread.messages, id) ==> thread.with_text(id, text) == thread,
{
    let after = thread.with_text(id, text).messages;
    if has_message(thread.messages, id) {
        lemma_first_message_exists(thread.messages, id);
        let f = message_position(thread.messages, id);
        assert(after[f].id == id);
        lemma_first_message_exists(after, id);
    } else {
        assert(after =~= thread.messages);
    }
}

/// One conversation of the index.
#[derive(Debug)]
pub struct Chat {
    pub id: String,
    pub title: String,
    pub session_id: String,
    pub created_at_ms: i64,
    pub updated_at_ms: i64,
    pub agent_id: Option<String>,
    pub thinking: Option<String>,
    pub worker: Option<String>,
}

/// `Chat` with its texts as sequences of characters.
pub ghost struct ChatView {
    pub id: Seq<char>,
    pub title: Seq<char>,
    pub session_id: Seq<char>,
    pub created_at_ms: i64,
    pub updated_at_ms: i64,
    pub agent_id: Option<Seq<char>>,
    pub thinking: Option<Seq<char>>,
    pub worker: Option<Seq<char>>,
}

impl View for Chat {
    type V = ChatView;

    open spec fn view(&self) -> ChatView {
        ChatView {
            id: self.id@,
            title: self.title@,
            session_id: self.session_id@,
            created_at_ms: self.created_at_ms,
            updated_at_ms: self.updated_at_ms,
            agent_id: self.agent_id.deep_view(),
            thinking: self.thinking.deep_view(),
            worker: self.worker.deep_view(),
        }
    }
}

impl DeepView for Chat {
    type V = ChatView;

    open spec fn deep_view(&self) -> ChatView {
        self@
    }
}

impl Clone for Chat {
    fn clone(&self) -> (r: Self)
        ensures
            r == *self,
    {
        Chat {
            id: self.id.clone(),
            title: self.title.clone(),
            session_id: self.session_id.clone(),
            created_at_ms: self.created_at_ms,
            updated_at_ms: self.updated_at_ms,
            agent_id: clone_optional(&self.agent_id),
            thinking: clone_optional(&self.thinking),
            worker: clone_optional(&self.worker),
        }
    }
}

/// The conversations of one profile, newest first.
#[derive(Debug)]
pub struct ChatIndex {
    pub version: i32,
    pub chats: Vec<Chat>,
}

/// `ChatIndex` as a mathematical value.
pub ghost struct ChatIndexView {
    pub version: i32,
    pub chats: Seq<ChatView>,
}

impl View for ChatIndex {
    type V = ChatIndexView;

    open spec fn view(&self) -> ChatIndexView {
        ChatIndexView { version: self.version, chats: self.chats.deep_view() }
    }
}

impl Default for ChatIndex {
    fn default() -> (r: Self)
        ensures
            r@ == (ChatIndexView { version: 1, chats: Seq::empty() }),
    {
        let r = ChatIndex { version: 1, chats: Vec::new() };
        assert(r.chats.deep_view() =~= Seq::empty());
        r
    }
}

impl Clone for ChatIndex {
    fn clone(&self) -> (r: Self)
        ensures
            r@ == self@,
    {
        let mut chats: Vec<Chat> = Vec::new();
        let n = self.chats.len();
        let mut i: usize = 0;
        while i < n
            invariant
                n == self.chats@.len(),
                i <= n,
                chats.deep_view() == self.chats.deep_view().subrange(0, i as int),
            decreases n - i,
        {
            let ghost before = chats.deep_view();
            let c = self.chats[i].clone();
            chats.push(c);
            assert(chats.deep_view() =~= before.push(c@));
            i = i + 1;
        }
        assert(chats.deep_view() =~= self.chats.deep_view());
        ChatIndex { version: self.version, chats }
    }
}

/// Why an operation on conversations was refused.
#[derive(Debug, Clone, Copy, PartialEq, Eq, Structural)]
pub enum ChatError {
    /// A generation is already running for the conversation.
    Busy,
    /// The index holds no conversation with the identifier.
    NotFound,
    /// The title is blank.
    TitleRequired,
}

impl ChatError {
    /// The message shown for the error.
    pub open spec fn spec_message(self) -> Seq<char> {
        match self {
            ChatError::Busy => "chat is busy (inflight)"@,
            ChatError::NotFound => "chat not found"@,
            ChatError::TitleRequired => "title required"@,
        }
    }

    /// The message shown for the error.
    pub fn message(self) -> (r: String)
        ensures
            r@ == self.spec_message(),
    {
        match self {
            ChatError::Busy => String::from_str("chat is busy (inflight)"),
            ChatError::NotFound => String::from_str("chat not found"),
            ChatError::TitleRequired => String::from_str("title required"),
        }
    }
}

/// The first index at which `id` stands among the conversation ids, if
/// any.
pub open spec fn first_chat_with(chats: Seq<ChatView>, id: Seq<char>, at: Option<int>) -> bool {
    match at {
        Some(i) => 0 <= i < chats.len() && chats[i].id == id && forall|j: int|
            0 <= j < i ==> chats[j].id != id,
        None => forall|j: int| 0 <= j < chats.len() ==> chats[j].id != id,
    }
}

/// Whether some conversation of the index has the id.
pub open spec fn has_chat(chats: Seq<ChatView>, id: Seq<char>) -> bool {
    exists|j: int| 0 <= j < chats.len() && chats[j].id == id
}

/// The index of the first conversation with the id; only meaningful where
/// `has_chat` holds.
pub open spec fn chat_position(chats: Seq<ChatView>, id: Seq<char>) -> int {
    choose|i: int| first_chat_with(chats, id, Some(i))
}

/// The conversations whose id differs from `id`, in their order.
pub open spec fn chats_without(chats: Seq<ChatView>, id: Seq<char>) -> Seq<ChatView>
    decreases chats.len(),
{
    if chats.len() == 0 {
        Seq::empty()
    } else if chats.last().id == id {
        chats_without(chats.drop_last(), id)
    } else {
        chats_without(chats.drop_last(), id).push(chats.last())
    }
}

/// The conversation that `chats_create` makes.
pub open spec fn created_chat(id: Seq<char>, title: Option<Seq<char>>, now_ms: i64) -> ChatView {
    ChatView {
        id,
        title: match title {
            Some(t) => t,
            None => "New chat"@,
        },
        session_id: "desktop-"@ + id,
        created_at_ms: now_ms,
        updated_at_ms: now_ms,
        agent_id: None,
        thinking: Some("low"@),
        worker: Some("default"@),
    }
}

impl ChatIndex {
    /// The position of the first conversation with the id.
    pub fn position(&self, chat_id: &str) -> (r: Option<usize>)
        ensures
            first_chat_with(
                self@.chats,
                chat_id@,
                match r {
                    Some(i) => Some(i as int),
                    None => None,
                },
            ),
            r is Some == has_chat(self@.chats, chat_id@),
            r matches Some(i) ==> i as int == chat_position(self@.chats, chat_id@),
    {
        let n = self.chats.len();
        let mut i: usize = 0;
        while i < n
            invariant
                n == self.chats@.len(),
                i <= n,
                forall|j: int| 0 <= j < i ==> self@.chats[j].id != chat_id@,
            decreases n - i,
        {
            if str_eq(self.chats[i].id.as_str(), chat_id) {
                proof {
                    lemma_first_chat_unique(self@.chats, chat_id@, i as int);
                }
                return Some(i);
            }
            i = i + 1;
        }
        None
    }
}

/// Only one index is the first at which an id stands.
pub proof fn lemma_first_chat_unique(chats: Seq<ChatView>, id: Seq<char>, i: int)
    requires
        first_chat_with(chats, id, Some(i)),
    ensures
        chat_position(chats, id) == i,
        has_chat(chats, id),
{
}

/// Adds a conversation with the given identifier at the front of the
/// index and returns it together with its empty log.
pub fn chats_create(idx: &mut ChatIndex, id: String, title: Option<String>, now_ms: i64) -> (r: (
    Chat,
    ChatThread,
))
    ensures
        r.0@ == created_chat(id@, title.deep_view(), now_ms),
        final(idx)@.chats == seq![r.0@] + old(idx)@.chats,
        final(idx)@.version == old(idx)@.version,
        r.1@ == (ChatThreadView { version: 1, chat_id: id@, messages: Seq::empty() }),
{
    let mut session_id = String::from_str("desktop-");
    session_id.append(id.as_str());
    let t = match title {
        Some(t) => t,
        None => String::from_str("New chat"),
    };
    let chat = Chat {
        id: id.clone(),
        title: t,
        session_id,
        created_at_ms: now_ms,
        updated_at_ms: now_ms,
        agent_id: None,
        thinking: Some(String::from_str("low")),
        worker: Some(String::from_str("default")),
    };
    let copy = chat.clone();
    idx.chats.insert(0, chat);
    (copy, ChatThread::new(id))
}

/// Gives the conversation a new title, trimmed. A blank title is refused
/// before the conversation is looked up.
pub fn chats_rename(idx: &mut ChatIndex, chat_id: &str, title: &str, now_ms: i64) -> (r: Result<
    (),
    ChatError,
>)
    ensures
        trimmed(title@).len() == 0 ==> r == Err::<(), ChatError>(ChatError::TitleRequired),
        trimmed(title@).len() > 0 && !has_chat(old(idx)@.chats, chat_id@) ==> r == Err::<
            (),
            ChatError,
        >(ChatError::NotFound),
        trimmed(title@).len() > 0 && has_chat(old(idx)@.chats, chat_id@) ==> r is Ok,
        r is Err ==> final(idx)@ == old(idx)@,
        r is Ok ==> final(idx)@ == (ChatIndexView {
            chats: old(idx)@.chats.update(
                chat_position(old(idx)@.chats, chat_id@),
                ChatView {
                    title: trimmed(title@),
                    updated_at_ms: now_ms,
                    ..old(idx)@.chats[chat_position(old(idx)@.chats, chat_id@)]
                },
            ),
            ..old(idx)@
        }),
{
    let t = trim(title);
    if t.as_str().unicode_len() == 0 {
        return Err(ChatError::TitleRequired);
    }
    match idx.position(chat_id) {
        Some(i) => {
            idx.chats[i].title = t;
            idx.chats[i].updated_at_ms = now_ms;
            assert(idx@.chats =~= old(idx)@.chats.update(
                i as int,
                ChatView {
                    title: trimmed(title@),
                    updated_at_ms: now_ms,
                    ..old(idx)@.chats[i as int]
                },
            ));
            Ok(())
        },
        None => Err(ChatError::NotFound),
    }
}

/// Sets the thinking effort, the agent and the worker of a conversation.
/// Each is trimmed, and dropped when blank.
pub fn chats_update(
    idx: &mut ChatIndex,
    chat_id: &str,
    thinking: Option<String>,
    agent_id: Option<String>,
    worker: Option<String>,
    now_ms: i64,
) -> (r: Result<(), ChatError>)
    ensures
        !has_chat(old(idx)@.chats, chat_id@) ==> r == Err::<(), ChatError>(ChatError::NotFound),
        has_chat(old(idx)@.chats, chat_id@) ==> r is Ok,
        r is Err ==> final(idx)@ == old(idx)@,
        r is Ok ==> final(idx)@ == (ChatIndexView {
            chats: old(idx)@.chats.update(
                chat_position(old(idx)@.chats, chat_id@),
                ChatView {
                    thinking: non_blank(thinking.deep_view()),
                    agent_id: non_blank(agent_id.deep_view()),
                    worker: non_blank(worker.deep_view()),
                    updated_at_ms: now_ms,
                    ..old(idx)@.chats[chat_position(old(idx)@.chats, chat_id@)]
                },
            ),
            ..old(idx)@
        }),
{
    match idx.position(chat_id) {
        Some(i) => {
            idx.chats[i].thinking = normalize_optional(thinking);
            idx.chats[i].agent_id = normalize_optional(agent_id);
            idx.chats[i].worker = normalize_optional(worker);
            idx.chats[i].updated_at_ms = now_ms;
            assert(idx@.chats =~= old(idx)@.chats.update(
                i as int,
                ChatView {
                    thinking: non_blank(thinking.deep_view()),
                    agent_id: non_blank(agent_id.deep_view()),
                    worker: non_blank(worker.deep_view()),
                    updated_at_ms: now_ms,
                    ..old(idx)@.chats[i as int]
                },
            ));
            Ok(())
        },
        None => Err(ChatError::NotFound),
    }
}

/// Removes every conversation with the id from the index.
pub fn chats_delete(idx: &mut ChatIndex, chat_id: &str)
    ensures
        final(idx)@ == (ChatIndexView {
            chats: chats_without(old(idx)@.chats, chat_id@),
            ..old(idx)@
        }),
{
    let mut kept: Vec<Chat> = Vec::new();
    let n = idx.chats.len();
    let mut i: usize = 0;
    while i < n
        invariant
            n == idx.chats@.len(),
            i <= n,
            idx == old(idx),
            kept.deep_view() == chats_without(idx@.chats.subrange(0, i as int), chat_id@),
        decreases n - i,
    {
        assert(idx@.chats.subrange(0, i + 1).drop_last() =~= idx@.chats.subrange(0, i as int));
        if !str_eq(idx.chats[i].id.as_str(), chat_id) {
            let c = idx.chats[i].clone();
            kept.push(c);
        }
        i = i + 1;
    }
    assert(idx@.chats.subrange(0, n as int) =~= idx@.chats);
    idx.chats = kept;
}

/// What a blocking send returns: the log after the send.
#[derive(Debug)]
pub struct ChatSendResult {
    pub thread: ChatThread,
}

/// What a streaming send returns at once: the log with the user's message
/// and the empty answer, the identifier of that answer, and the worker
/// that will produce it.
#[derive(Debug)]
pub struct ChatSendStreamResult {
    pub thread: ChatThread,
    pub assistant_message_id: String,
    pub worker: String,
}

} // verus!
