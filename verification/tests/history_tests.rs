use omnihub_core::chat::{agent_history, chat_history, ChatRole, StoredChatMessage};

fn row(role: &str, content: &str) -> StoredChatMessage {
    StoredChatMessage {
        role: role.to_string(),
        content: content.to_string(),
        tool_calls_json: None,
        tool_call_id: None,
    }
}

/// history_count=0 时不携带任何历史消息
#[test]
fn agent_history_count_zero_carries_nothing() {
    let history = agent_history(None, 0, "你好");
    assert!(history.is_empty());
}

/// 末尾与当前输入重复的用户消息会被去除
#[test]
fn agent_history_dedups_trailing_current_input() {
    let history = agent_history(None, 10, "你好");
    assert!(history.is_empty());
}

#[test]
fn agent_history_keeps_tool_details_and_cuts_to_count() {
    let mut call = row("assistant", "执行写入");
    call.tool_calls_json = Some("[{\"id\":\"call-1\"}]".to_string());
    let mut result = row("tool", "total 2");
    result.tool_call_id = Some("call-1".to_string());
    let rows = vec![row("user", "很早的消息"), row("user", "列出文件"), call, result, row("user", "当前输入")];
    let history = agent_history(Some(&rows), 4, "当前输入");
    assert_eq!(history.len(), 3);
    assert_eq!(history[0].role, ChatRole::User);
    assert_eq!(history[0].content, "列出文件");
    assert_eq!(history[1].role, ChatRole::Assistant);
    assert_eq!(history[1].tool_calls_json.as_deref(), Some("[{\"id\":\"call-1\"}]"));
    assert_eq!(history[2].role, ChatRole::Tool);
    assert_eq!(history[2].tool_call_id.as_deref(), Some("call-1"));
}

#[test]
fn chat_history_maps_roles_and_prepends_instruction() {
    let rows = vec![row("user", "a"), row("assistant", "b"), row("tool", "c"), row("weird", "d"), row("system", "e")];
    let history = chat_history(Some(&rows), 3, "now", Some("be brief"));
    let roles: Vec<ChatRole> = history.iter().map(|m| m.role).collect();
    assert_eq!(roles, vec![ChatRole::System, ChatRole::User, ChatRole::User, ChatRole::System]);
    let texts: Vec<&str> = history.iter().map(|m| m.content.as_str()).collect();
    assert_eq!(texts, vec!["be brief", "c", "d", "e"]);
    assert!(history.iter().all(|m| m.tool_call_id.is_none() && m.tool_calls_json.is_none()));
}

#[test]
fn chat_history_without_session_sends_input_even_with_zero_count() {
    let history = chat_history(None, 0, "hello", None);
    assert_eq!(history.len(), 1);
    assert_eq!(history[0].role, ChatRole::User);
    assert_eq!(history[0].content, "hello");
    let stored = vec![row("user", "x")];
    assert!(chat_history(Some(&stored), 0, "hello", None).is_empty());
}
