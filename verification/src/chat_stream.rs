//! The events that a streaming send publishes to its observers.

use crate::text::clone_optional;
use vstd::prelude::*;
use vstd::string::*;

verus! {

/// One event of a streaming send. It is published and not stored.
#[derive(Debug)]
pub struct ChatStreamEvent {
    pub profile_id: String,
    pub chat_id: String,
    pub message_id: String,
    pub delta: String,
    pub done: bool,
    pub error: Option<String>,
    /// Set where the event is about a message that is new to the log: the
    /// role of that message.
    pub new_role: Option<String>,
    /// Set together with `new_role`: the creation time of that message.
    pub new_created_at_ms: Option<i64>,
}

/// `ChatStreamEvent` with its texts as sequences of characters.
pub ghost struct ChatStreamEventView {
    pub profile_id: Seq<char>,
    pub chat_id: Seq<char>,
    pub message_id: Seq<char>,
    pub delta: Seq<char>,
    pub done: bool,
    pub error: Option<Seq<char>>,
    pub new_role: Option<Seq<char>>,
    pub new_created_at_ms: Option<i64>,
}

impl View for ChatStreamEvent {
    type V = ChatStreamEventView;

    open spec fn view(&self) -> ChatStreamEventView {
        ChatStreamEventView {
            profile_id: self.profile_id@,
            chat_id: self.chat_id@,
            message_id: self.message_id@,
            delta: self.delta@,
            done: self.done,
            error: self.error.deep_view(),
            new_role: self.new_role.deep_view(),
            new_created_at_ms: self.new_created_at_ms,
        }
    }
}

impl DeepView for ChatStreamEvent {
    type V = ChatStreamEventView;

    open spec fn deep_view(&self) -> ChatStreamEventView {
        self@
    }
}

impl Clone for ChatStreamEvent {
    fn clone(&self) -> (r: Self)
        ensures
            r == *self,
    {
        ChatStreamEvent {
            profile_id: self.profile_id.clone(),
            chat_id: self.chat_id.clone(),
            message_id: self.message_id.clone(),
            delta: self.delta.clone(),
            done: self.done,
            error: clone_optional(&self.error),
            new_role: clone_optional(&self.new_role),
            new_created_at_ms: self.new_created_at_ms,
        }
    }
}

impl ChatStreamEventView {
    /// A piece of the answer that is being written into a message.
    pub open spec fn piece(
        profile_id: Seq<char>,
        chat_id: Seq<char>,
        message_id: Seq<char>,
        delta: Seq<char>,
    ) -> ChatStreamEventView {
        ChatStreamEventView {
            profile_id,
            chat_id,
            message_id,
            delta,
            done: false,
            error: None,
            new_role: None,
            new_created_at_ms: None,
        }
    }

    /// The end of a streamed answer: no text, and the end mark.
    pub open spec fn end(
        profile_id: Seq<char>,
        chat_id: Seq<char>,
        message_id: Seq<char>,
    ) -> ChatStreamEventView {
        ChatStreamEventView {
            profile_id,
            chat_id,
            message_id,
            delta: Seq::empty(),
            done: true,
            error: None,
            new_role: None,
            new_created_at_ms: None,
        }
    }

    /// The failure of a send: no text, the end mark and the error.
    pub open spec fn failure(
        profile_id: Seq<char>,
        chat_id: Seq<char>,
        message_id: Seq<char>,
        error: Seq<char>,
    ) -> ChatStreamEventView {
        ChatStreamEventView {
            profile_id,
            chat_id,
            message_id,
            delta: Seq::empty(),
            done: true,
            error: Some(error),
            new_role: None,
            new_created_at_ms: None,
        }
    }

    /// The event with the mark of a message that is new to the log.
    pub open spec fn as_new(self, role: Seq<char>, created_at_ms: i64) -> ChatStreamEventView {
        ChatStreamEventView {
            new_role: Some(role),
            new_created_at_ms: Some(created_at_ms),
            ..self
        }
    }
}

impl ChatStreamEvent {
    /// A piece of the answer that is being written into a message.
    pub fn piece(profile_id: &str, chat_id: &str, message_id: &str, delta: &str) -> (r: Self)
        ensures
            r@ == ChatStreamEventView::piece(profile_id@, chat_id@, message_id@, delta@),
    {
        ChatStreamEvent {
            profile_id: String::from_str(profile_id),
            chat_id: String::from_str(chat_id),
            message_id: String::from_str(message_id),
            delta: String::from_str(delta),
            done: false,
            error: None,
            new_role: None,
            new_created_at_ms: None,
        }
    }

    /// The end of a streamed answer.
    pub fn end(profile_id: &str, chat_id: &str, message_id: &str) -> (r: Self)
        ensures
            r@ == ChatStreamEventView::end(profile_id@, chat_id@, message_id@),
    {
        ChatStreamEvent {
            profile_id: String::from_str(profile_id),
            chat_id: String::from_str(chat_id),
            message_id: String::from_str(message_id),
            delta: String::new(),
            done: true,
            error: None,
            new_role: None,
            new_created_at_ms: None,
        }
    }

    /// The failure of a send.
    pub fn failure(profile_id: &str, chat_id: &str, message_id: &str, error: String) -> (r: Self)
        ensures
            r@ == ChatStreamEventView::failure(profile_id@, chat_id@, message_id@, error@),
    {
        ChatStreamEvent {
            profile_id: String::from_str(profile_id),
            chat_id: String::from_str(chat_id),
            message_id: String::from_str(message_id),
            delta: String::new(),
            done: true,
            error: Some(error),
            new_role: None,
            new_created_at_ms: None,
        }
    }

    /// Marks the event as one about a message that is new to the log.
    pub fn as_new(self, role: String, created_at_ms: i64) -> (r: Self)
        ensures
            r@ == self@.as_new(role@, created_at_ms),
    {
        ChatStreamEvent {
            profile_id: self.profile_id,
            chat_id: self.chat_id,
            message_id: self.message_id,
            delta: self.delta,
            done: self.done,
            error: self.error,
            new_role: Some(role),
            new_created_at_ms: Some(created_at_ms),
        }
    }
}

} // verus!
