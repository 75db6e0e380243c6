use openclaw_desktop::chats::{
    chats_create, ChatError, ChatIndex, ChatRole, ChatThread,
};
use openclaw_desktop::send::{
    begin_send, chat_reset, chat_send, chat_send_finish, chat_send_stream, end_send, Orchestrator,
};
use openclaw_desktop::tool_loop::{LoopAction, LoopError};

fn index_with(id: &str) -> ChatIndex {
    let mut idx = ChatIndex::default();
    chats_create(&mut idx, id.to_string(), None, 5);
    idx
}

#[test]
fn hello_gets_a_plain_answer() {
    let mut ctx = Orchestrator::new();
    let mut idx = index_with("c_1");
    let mut thread = ChatThread::new("c_1".to_string());

    let permit = begin_send(&mut ctx, "p_1", "c_1").unwrap();
    assert_eq!((permit.profile_id().as_str(), permit.chat_id().as_str()), ("p_1", "c_1"));
    assert!(ctx.inflight.is_inflight("p_1", "c_1"));
    let (permit, mut tools) = match chat_send(&mut ctx, permit, &mut idx, &mut thread, "hello".to_string(), false, false, 1000) {
        Ok(t) => t,
        Err(e) => panic!("unexpected {:?}", e),
    };
    assert!(ctx.inflight.is_inflight("p_1", "c_1"));
    assert_eq!(thread.messages.len(), 1);
    assert_eq!(idx.chats[0].updated_at_ms, 1000);
    assert!(matches!(tools.start(), LoopAction::Ask));
    let outcome = match tools.reply("hi there".to_string()) {
        LoopAction::Answer { text } => Ok(text),
        LoopAction::Fail { error } => Err(error),
        other => panic!("unexpected {:?}", other),
    };
    let result = chat_send_finish(&mut ctx, permit, &mut idx, &mut thread, outcome, 2000);

    assert_eq!(result.thread.messages.len(), 2);
    assert_eq!(result.thread.messages[0].role, ChatRole::User);
    assert_eq!(result.thread.messages[0].text, "hello");
    assert_eq!(result.thread.messages[0].id, "m_1000_1");
    assert_eq!(result.thread.messages[0].created_at_ms, 1000);
    assert_eq!(result.thread.messages[1].role, ChatRole::Assistant);
    assert_eq!(result.thread.messages[1].text, "hi there");
    assert_eq!(result.thread.messages[1].id, "m_2000_2");
    assert_eq!(thread.messages.len(), 2);
    assert_eq!(idx.chats[0].updated_at_ms, 2000);
    assert!(!ctx.inflight.is_inflight("p_1", "c_1"));
    assert!(begin_send(&mut ctx, "p_1", "c_1").is_ok());
}

#[test]
fn second_send_is_busy_and_touches_nothing() {
    let mut ctx = Orchestrator::new();
    let first = begin_send(&mut ctx, "p_1", "c_1").unwrap();
    assert!(matches!(begin_send(&mut ctx, "p_1", "c_1"), Err(ChatError::Busy)));
    assert_eq!(ChatError::Busy.message(), "chat is busy (inflight)");
    assert!(ctx.inflight.is_inflight("p_1", "c_1"));
    assert_eq!(ctx.ids.make("m", 0), "m_0_1");
    let other = begin_send(&mut ctx, "p_1", "c_2").unwrap();
    end_send(&mut ctx, first);
    assert!(begin_send(&mut ctx, "p_1", "c_1").is_ok());
    assert!(matches!(begin_send(&mut ctx, "p_1", "c_2"), Err(ChatError::Busy)));
    end_send(&mut ctx, other);
    assert!(begin_send(&mut ctx, "p_1", "c_2").is_ok());
}

#[test]
fn only_the_send_that_was_let_in_writes() {
    let mut ctx = Orchestrator::new();
    let mut idx = index_with("c_1");
    let mut thread = ChatThread::new("c_1".to_string());
    let winner = begin_send(&mut ctx, "p_1", "c_1").unwrap();
    let loser = begin_send(&mut ctx, "p_1", "c_1");
    assert!(matches!(loser, Err(ChatError::Busy)));
    let (winner, _tools) = chat_send(&mut ctx, winner, &mut idx, &mut thread, "t1".to_string(), false, false, 10).unwrap();
    assert_eq!(thread.messages.len(), 1);
    assert_eq!(thread.messages[0].text, "t1");
    assert!(matches!(begin_send(&mut ctx, "p_1", "c_1"), Err(ChatError::Busy)));
    end_send(&mut ctx, winner);
    assert!(!ctx.inflight.is_inflight("p_1", "c_1"));
}

#[test]
fn conversations_with_colons_in_their_names_do_not_block_each_other() {
    let mut ctx = Orchestrator::new();
    let a = begin_send(&mut ctx, "a::b", "c");
    let b = begin_send(&mut ctx, "a", "b::c");
    assert!(a.is_ok());
    assert!(b.is_ok());
}

#[test]
fn unknown_conversation_is_refused_and_released() {
    let mut ctx = Orchestrator::new();
    let mut idx = index_with("c_1");
    let mut thread = ChatThread::new("c_9".to_string());
    let permit = begin_send(&mut ctx, "p_1", "c_9").unwrap();
    let r = chat_send(&mut ctx, permit, &mut idx, &mut thread, "hello".to_string(), false, false, 1000);
    assert!(matches!(r, Err(ChatError::NotFound)));
    assert_eq!(ChatError::NotFound.message(), "chat not found");
    assert!(thread.messages.is_empty());
    assert_eq!(idx.chats[0].updated_at_ms, 5);
    assert!(!ctx.inflight.is_inflight("p_1", "c_9"));
    assert_eq!(ctx.ids.make("m", 0), "m_0_1");

    let permit = begin_send(&mut ctx, "p_1", "c_9").unwrap();
    let r = chat_send_stream(&mut ctx, permit, &mut idx, &mut thread, "hello".to_string(), 1000);
    assert!(matches!(r, Err(ChatError::NotFound)));
    assert!(thread.messages.is_empty());
    assert!(!ctx.inflight.is_inflight("p_1", "c_9"));
}

#[test]
fn failed_send_leaves_an_error_message() {
    let mut ctx = Orchestrator::new();
    let mut idx = index_with("c_1");
    let mut thread = ChatThread::new("c_1".to_string());
    let permit = begin_send(&mut ctx, "p_1", "c_1").unwrap();
    let (permit, _tools) = chat_send(&mut ctx, permit, &mut idx, &mut thread, "hello".to_string(), false, false, 1000).unwrap();
    let r = chat_send_finish(&mut ctx, permit, &mut idx, &mut thread, Err(LoopError::Exceeded), 2000);
    assert_eq!(r.thread.messages.len(), 2);
    assert_eq!(r.thread.messages[1].role, ChatRole::Assistant);
    assert_eq!(r.thread.messages[1].text, "[error] tool loop exceeded");
    assert_eq!(idx.chats[0].updated_at_ms, 1000);
    assert!(!ctx.inflight.is_inflight("p_1", "c_1"));

    let permit = begin_send(&mut ctx, "p_1", "c_1").unwrap();
    let r = chat_send_finish(
        &mut ctx,
        permit,
        &mut idx,
        &mut thread,
        Err(LoopError::Backend { message: "ollama error 500 x: y".to_string() }),
        3000,
    );
    assert_eq!(r.thread.messages[2].text, "[error] ollama error 500 x: y");
}

#[test]
fn streaming_send_opens_with_a_placeholder() {
    let mut ctx = Orchestrator::new();
    let mut idx = index_with("c_1");
    let mut thread = ChatThread::new("c_1".to_string());
    let permit = begin_send(&mut ctx, "p_1", "c_1").unwrap();
    let (permit, opened) = chat_send_stream(&mut ctx, permit, &mut idx, &mut thread, "hello".to_string(), 1000).unwrap();
    assert_eq!(opened.assistant_message_id, "m_1000_2");
    assert_eq!(opened.worker, "default");
    assert_eq!(opened.thread.messages.len(), 2);
    assert_eq!(opened.thread.messages[0].id, "m_1000_1");
    assert_eq!(opened.thread.messages[0].role, ChatRole::User);
    assert_eq!(opened.thread.messages[0].text, "hello");
    assert_eq!(opened.thread.messages[1].id, "m_1000_2");
    assert_eq!(opened.thread.messages[1].role, ChatRole::Assistant);
    assert_eq!(opened.thread.messages[1].text, "");
    assert_eq!(thread.messages.len(), 2);
    assert_eq!(idx.chats[0].updated_at_ms, 1000);
    assert!(ctx.inflight.is_inflight("p_1", "c_1"));
    assert_eq!(ctx.workers.get_worker_lock("p_1", &opened.worker), 0);
    end_send(&mut ctx, permit);
    assert!(!ctx.inflight.is_inflight("p_1", "c_1"));
}

#[test]
fn streaming_send_uses_the_worker_of_the_conversation() {
    let mut ctx = Orchestrator::new();
    let mut idx = index_with("c_1");
    idx.chats[0].worker = Some("gpu".to_string());
    let mut thread = ChatThread::new("c_1".to_string());
    let permit = begin_send(&mut ctx, "p_1", "c_1").unwrap();
    let (permit, opened) = chat_send_stream(&mut ctx, permit, &mut idx, &mut thread, "x".to_string(), 1).unwrap();
    assert_eq!(opened.worker, "gpu");
    idx.chats[0].worker = None;
    end_send(&mut ctx, permit);
    let permit = begin_send(&mut ctx, "p_1", "c_1").unwrap();
    let (_permit, opened) = chat_send_stream(&mut ctx, permit, &mut idx, &mut thread, "y".to_string(), 2).unwrap();
    assert_eq!(opened.worker, "default");
}

#[test]
fn reset_empties_the_log_and_frees_the_conversation() {
    let mut ctx = Orchestrator::new();
    let _permit = begin_send(&mut ctx, "p_1", "c_1").unwrap();
    let t = chat_reset(&mut ctx, "p_1", "c_1".to_string());
    assert_eq!(t.chat_id, "c_1");
    assert_eq!(t.version, 1);
    assert!(t.messages.is_empty());
    assert!(!ctx.inflight.is_inflight("p_1", "c_1"));
}
