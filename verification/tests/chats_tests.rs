use openclaw_desktop::chats::{
    chats_create, chats_delete, chats_rename, chats_update, ChatError, ChatIndex, ChatRole,
    ChatThread,
};

#[test]
fn new_thread_is_empty() {
    let t = ChatThread::new("c_7".to_string());
    assert_eq!(t.version, 1);
    assert_eq!(t.chat_id, "c_7");
    assert!(t.messages.is_empty());
}

#[test]
fn thread_operations() {
    let mut t = ChatThread::new("c".to_string());
    t.push_message("m_1".to_string(), ChatRole::User, "one".to_string(), 1);
    t.push_message("m_2".to_string(), ChatRole::Assistant, "".to_string(), 2);
    t.push_message("m_2".to_string(), ChatRole::Tool, "dup".to_string(), 3);
    assert_eq!(t.position("m_1"), Some(0));
    assert_eq!(t.position("m_2"), Some(1));
    assert_eq!(t.position("m_3"), None);
    assert!(t.set_text("m_2", "answer".to_string()));
    assert_eq!(t.messages[1].text, "answer");
    assert_eq!(t.messages[2].text, "dup");
    assert!(!t.set_text("m_9", "x".to_string()));
    assert_eq!(t.messages.len(), 3);
    assert_eq!(t.last_user_text(), Some("one".to_string()));
    t.push_message("m_4".to_string(), ChatRole::User, "two".to_string(), 4);
    t.push_message("m_5".to_string(), ChatRole::Assistant, "x".to_string(), 5);
    assert_eq!(t.last_user_text(), Some("two".to_string()));
    assert_eq!(ChatThread::new("c".to_string()).last_user_text(), None);
    let copy = t.clone();
    assert_eq!(copy.messages.len(), 5);
    assert_eq!(copy.messages[3].text, "two");
    assert_eq!(copy.chat_id, "c");
}

#[test]
fn create_puts_the_chat_first() {
    let mut idx = ChatIndex::default();
    assert_eq!(idx.version, 1);
    let (chat, thread) = chats_create(&mut idx, "c_10_1".to_string(), None, 10);
    assert_eq!(chat.id, "c_10_1");
    assert_eq!(chat.title, "New chat");
    assert_eq!(chat.session_id, "desktop-c_10_1");
    assert_eq!(chat.created_at_ms, 10);
    assert_eq!(chat.updated_at_ms, 10);
    assert_eq!(chat.agent_id, None);
    assert_eq!(chat.thinking, Some("low".to_string()));
    assert_eq!(chat.worker, Some("default".to_string()));
    assert_eq!(thread.chat_id, "c_10_1");
    assert!(thread.messages.is_empty());
    let (second, _) = chats_create(&mut idx, "c_11_2".to_string(), Some("  Title ".to_string()), 11);
    assert_eq!(second.title, "  Title ");
    assert_eq!(idx.chats.len(), 2);
    assert_eq!(idx.chats[0].id, "c_11_2");
    assert_eq!(idx.chats[1].id, "c_10_1");
    assert_eq!(idx.position("c_10_1"), Some(1));
    assert_eq!(idx.position("nope"), None);
    assert_eq!(idx.clone().chats.len(), 2);
}

#[test]
fn rename_trims_and_checks() {
    let mut idx = ChatIndex::default();
    chats_create(&mut idx, "a".to_string(), None, 1);
    chats_create(&mut idx, "b".to_string(), None, 2);
    assert_eq!(chats_rename(&mut idx, "a", "  Hello  ", 30), Ok(()));
    assert_eq!(idx.chats[1].title, "Hello");
    assert_eq!(idx.chats[1].updated_at_ms, 30);
    assert_eq!(idx.chats[0].title, "New chat");
    assert_eq!(idx.chats[0].updated_at_ms, 2);
    assert_eq!(chats_rename(&mut idx, "a", "   ", 40), Err(ChatError::TitleRequired));
    assert_eq!(chats_rename(&mut idx, "zzz", "", 40), Err(ChatError::TitleRequired));
    assert_eq!(chats_rename(&mut idx, "zzz", "x", 40), Err(ChatError::NotFound));
    assert_eq!(idx.chats[1].title, "Hello");
    assert_eq!(idx.chats[1].updated_at_ms, 30);
    assert_eq!(ChatError::TitleRequired.message(), "title required");
}

#[test]
fn update_normalises_optional_fields() {
    let mut idx = ChatIndex::default();
    chats_create(&mut idx, "a".to_string(), None, 1);
    let r = chats_update(&mut idx, "a", Some(" high ".to_string()), Some("   ".to_string()), None, 9);
    assert_eq!(r, Ok(()));
    assert_eq!(idx.chats[0].thinking, Some("high".to_string()));
    assert_eq!(idx.chats[0].agent_id, None);
    assert_eq!(idx.chats[0].worker, None);
    assert_eq!(idx.chats[0].updated_at_ms, 9);
    let r = chats_update(&mut idx, "a", None, Some("main".to_string()), Some("gpu".to_string()), 10);
    assert_eq!(r, Ok(()));
    assert_eq!(idx.chats[0].thinking, None);
    assert_eq!(idx.chats[0].agent_id, Some("main".to_string()));
    assert_eq!(idx.chats[0].worker, Some("gpu".to_string()));
    assert_eq!(chats_update(&mut idx, "b", None, None, None, 11), Err(ChatError::NotFound));
    assert_eq!(idx.chats[0].updated_at_ms, 10);
}

#[test]
fn delete_removes_the_chat() {
    let mut idx = ChatIndex::default();
    chats_create(&mut idx, "a".to_string(), None, 1);
    chats_create(&mut idx, "b".to_string(), None, 2);
    chats_create(&mut idx, "a".to_string(), None, 3);
    chats_create(&mut idx, "c".to_string(), None, 4);
    chats_delete(&mut idx, "a");
    let ids: Vec<&str> = idx.chats.iter().map(|c| c.id.as_str()).collect();
    assert_eq!(ids, vec!["c", "b"]);
    chats_delete(&mut idx, "zzz");
    assert_eq!(idx.chats.len(), 2);
    chats_delete(&mut idx, "c");
    chats_delete(&mut idx, "b");
    assert!(idx.chats.is_empty());
    assert_eq!(idx.version, 1);
}
