use omnihub_core::chat::{
    clean_ai_title, ensure_session_choice, extract_session_name, session_title_from,
    strip_tool_record_blocks, tool_call_detail, tool_call_header, truncate_chars, LanguageMatcher,
    SessionChoice,
};
use omnihub_core::thinking::split_thinking_blocks;

#[test]
fn strip_removes_tool_record_blocks() {
    let content = "结论如下\n```omnihub-tool\n{\"name\":\"write\"}\n```\n补充说明";
    assert_eq!(strip_tool_record_blocks(content), "结论如下\n补充说明");
}

#[test]
fn strip_keeps_normal_code_blocks() {
    let content = "```bash\nls -la\n```";
    assert_eq!(strip_tool_record_blocks(content), "```bash\nls -la\n```");
}

#[test]
fn strip_handles_unclosed_block_and_passthrough() {
    assert_eq!(strip_tool_record_blocks("前文\n```omnihub-tool\n{\"name\":\"x\"}"), "前文");
    assert_eq!(strip_tool_record_blocks("纯文本"), "纯文本");
}

#[test]
fn test_extract_session_name_short() {
    assert_eq!(extract_session_name("Hello", "New Chat"), "Hello");
    assert_eq!(extract_session_name("  Hello  ", "New Chat"), "Hello");
}

#[test]
fn test_extract_session_name_long() {
    let long_text = "这是一个非常长的会话标题，需要被截断，并且应该带有省略号";
    let result = extract_session_name(long_text, "New Chat");
    assert!(result.ends_with("..."));
    assert!(result.chars().count() <= 20);
}

#[test]
fn test_extract_session_name_with_newlines() {
    assert_eq!(extract_session_name("Hello\nWorld", "New Chat"), "Hello World");
    assert_eq!(extract_session_name("Line1\n\nLine2\nLine3", "New Chat"), "Line1 Line2 Line3");
    assert_eq!(extract_session_name("\n  Hello  \n", "New Chat"), "Hello");
}

#[test]
fn extract_session_name_of_blank_text_is_the_fallback() {
    assert_eq!(extract_session_name("   \n ", "New Chat"), "New Chat");
}

#[test]
fn truncate_chars_counts_characters() {
    assert_eq!(truncate_chars("abcdef", 3), "abc...");
    assert_eq!(truncate_chars("短文本", 10), "短文本");
}

#[test]
fn language_matchers_match_their_languages() {
    assert!(LanguageMatcher::sql().matches(Some("sql")));
    assert!(LanguageMatcher::shell().matches(Some("bash")));
    assert!(!LanguageMatcher::rust().matches(Some("python")));
    assert!(LanguageMatcher::exact("rust").matches(Some("rust")));
}

#[test]
fn split_single_block() {
    let parsed = split_thinking_blocks("<think>reasoning</think>body");
    assert_eq!(parsed.thinking.as_deref(), Some("reasoning"));
    assert_eq!(parsed.body, "body");
}

#[test]
fn split_multiple_blocks_merged() {
    let parsed = split_thinking_blocks("<think>first</think>between<think>second</think>after");
    assert_eq!(parsed.thinking.as_deref(), Some("first\n\nsecond"));
    assert_eq!(parsed.body, "betweenafter");
}

#[test]
fn split_multiline_thinking() {
    let parsed = split_thinking_blocks("<think>line1\nline2\nline3</think>body");
    assert_eq!(parsed.thinking.as_deref(), Some("line1\nline2\nline3"));
    assert_eq!(parsed.body, "body");
}

#[test]
fn split_no_block_returns_body_only() {
    let parsed = split_thinking_blocks("just plain markdown");
    assert!(parsed.thinking.is_none());
    assert_eq!(parsed.body, "just plain markdown");
}

#[test]
fn split_empty_block_returns_none() {
    let parsed = split_thinking_blocks("<think></think>body");
    assert!(parsed.thinking.is_none());
    assert_eq!(parsed.body, "body");
}

#[test]
fn split_whitespace_only_block_returns_none() {
    let parsed = split_thinking_blocks("<think>   \n </think>body");
    assert!(parsed.thinking.is_none());
    assert_eq!(parsed.body, "body");
}

#[test]
fn split_unclosed_block_kept_as_text() {
    let parsed = split_thinking_blocks("<think>unclosed body");
    assert!(parsed.thinking.is_none());
    assert_eq!(parsed.body, "<think>unclosed body");
}

#[test]
fn split_trims_whitespace() {
    let parsed = split_thinking_blocks("<think>  \n  reasoning  \n </think>body");
    assert_eq!(parsed.thinking.as_deref(), Some("reasoning"));
    assert_eq!(parsed.body, "body");
}

#[test]
fn split_block_before_and_after() {
    let parsed = split_thinking_blocks("pre<think>t</think>post");
    assert_eq!(parsed.thinking.as_deref(), Some("t"));
    assert_eq!(parsed.body, "prepost");
}

#[test]
fn split_realistic_ai_response() {
    let content = "<think>The user wants to check the schema.\nLet me query.\n\nSELECT * FROM users</think>I've queried the users table.";
    let parsed = split_thinking_blocks(content);
    assert!(parsed.thinking.is_some());
    assert!(parsed.thinking.as_ref().unwrap().contains("SELECT * FROM users"));
    assert_eq!(parsed.body, "I've queried the users table.");
}

#[test]
fn tool_call_detail_lists_non_empty_parts() {
    assert_eq!(tool_call_detail("Tool", "Args", "Output", "read_file", "", ""), "**Tool** read_file");
    assert_eq!(
        tool_call_detail("Tool", "Args", "Output", "read_file", "path=a.txt", ""),
        "**Tool** read_file\n**Args** path=a.txt"
    );
    assert_eq!(
        tool_call_detail("工具", "参数", "输出", "ls", "", "a b"),
        "**工具** ls\n**输出** a b"
    );
    assert_eq!(
        tool_call_detail("T", "A", "O", "x", "y", "z"),
        "**T** x\n**A** y\n**O** z"
    );
}

#[test]
fn tool_call_header_numbers_and_shortens() {
    assert_eq!(tool_call_header(2, "执行命令，ls -la"), "[2]:执行命令，ls -la");
    assert_eq!(tool_call_header(0, "执行命令"), "执行命令");
    let long = "x".repeat(100);
    let h = tool_call_header(12, &long);
    assert_eq!(h.chars().count(), 83);
    assert!(h.starts_with("[12]:xxx"));
    assert!(h.ends_with("..."));
}

#[test]
fn session_is_kept_only_where_stored() {
    assert_eq!(ensure_session_choice(Some(4), true), SessionChoice::Keep(4));
    assert_eq!(ensure_session_choice(Some(4), false), SessionChoice::Create);
    assert_eq!(ensure_session_choice(None, true), SessionChoice::Create);
}

#[test]
fn session_title_from_prose_without_mentions() {
    assert_eq!(session_title_from("  hello   world ", "New"), "hello world");
    assert_eq!(session_title_from("   ", "New"), "New");
    assert_eq!(session_title_from("this is a rather long first message", "New"), "this is a rather...");
}

#[test]
fn ai_titles_are_trimmed_and_unquoted() {
    assert_eq!(clean_ai_title("  \"数据库迁移\"  ").as_deref(), Some("数据库迁移"));
    assert_eq!(clean_ai_title("'Deploy plan'").as_deref(), Some("Deploy plan"));
    assert_eq!(clean_ai_title("\"'quoted'\"").as_deref(), Some("quoted"));
    assert!(clean_ai_title("  \"\"  ").is_none());
    assert!(clean_ai_title("").is_none());
}
