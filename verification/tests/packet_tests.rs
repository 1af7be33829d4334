use oxichat::chat::{str_eq, Action, ActionPacket, AssistantTool, ChatError, Message,
    MessageRoles};

fn pair(k: &str, v: &str) -> (String, String) {
    (k.to_string(), v.to_string())
}

#[test]
fn str_eq_compares_contents() {
    assert!(str_eq("chat", "chat"));
    assert!(!str_eq("chat", "chap"));
    assert!(!str_eq("chat", "chat "));
    assert!(str_eq("", ""));
}

#[test]
fn role_names() {
    assert_eq!(MessageRoles::System.name(), "system");
    assert_eq!(MessageRoles::Tool.name(), "tool");
    assert_eq!(MessageRoles::User.name(), "user");
    assert_eq!(MessageRoles::Assistant.name(), "assistant");
    assert_eq!(MessageRoles::Other.name(), "other");
}

#[test]
fn role_classification_types_hallucinated_roles() {
    assert_eq!(MessageRoles::from_name("system"), MessageRoles::System);
    assert_eq!(MessageRoles::from_name("tool"), MessageRoles::Tool);
    assert_eq!(MessageRoles::from_name("user"), MessageRoles::User);
    assert_eq!(MessageRoles::from_name("assistant"), MessageRoles::Assistant);
    // A role outside the recognized set is typed, never a crash.
    assert_eq!(MessageRoles::from_name("oracle"), MessageRoles::Other);
    assert_eq!(MessageRoles::from_name("other"), MessageRoles::Other);
    assert!(MessageRoles::User.recognized());
    assert!(MessageRoles::System.recognized());
    assert!(!MessageRoles::Other.recognized());
}

#[test]
fn tool_names_round_trip() {
    let tools = [
        AssistantTool::WikiSearch,
        AssistantTool::WebSearch,
        AssistantTool::GetDateTime,
        AssistantTool::GetDirectoryTree,
        AssistantTool::GetFileContents,
        AssistantTool::InvalidTool,
    ];
    for t in tools {
        assert_eq!(AssistantTool::from_name(t.name()), Some(t));
    }
    assert_eq!(AssistantTool::from_name("teleport"), None);
    assert_eq!(AssistantTool::WikiSearch.name(), "wiki_search");
    assert_eq!(AssistantTool::GetDirectoryTree.name(), "get_dir_tree");
}

#[test]
fn only_real_tools_are_executable() {
    assert!(AssistantTool::WikiSearch.executable());
    assert!(AssistantTool::WebSearch.executable());
    assert!(AssistantTool::GetDateTime.executable());
    assert!(AssistantTool::GetDirectoryTree.executable());
    assert!(AssistantTool::GetFileContents.executable());
    assert!(!AssistantTool::InvalidTool.executable());
}

#[test]
fn action_names() {
    assert_eq!(Action::Chat.name(), "chat");
    assert_eq!(Action::Tool(AssistantTool::WebSearch).name(), "web_search");
    assert_eq!(Action::from_name("chat"), Some(Action::Chat));
    assert_eq!(
        Action::from_name("wiki_search"),
        Some(Action::Tool(AssistantTool::WikiSearch))
    );
    assert_eq!(Action::from_name("dance"), None);
}

#[test]
fn packet_renders_exact_wire_text() {
    let p = ActionPacket::new(Action::Chat, vec![pair("response", "Hi")]);
    assert_eq!(
        p.to_text(),
        "{\"action\":\"chat\",\"arguments\":{\"response\":\"Hi\"}}"
    );
}

#[test]
fn packet_renders_empty_arguments() {
    let p = ActionPacket::new(Action::Tool(AssistantTool::GetDateTime), vec![]);
    assert_eq!(p.to_text(), "{\"action\":\"get_date_time\",\"arguments\":{}}");
}

#[test]
fn packet_escapes_argument_text() {
    let p = ActionPacket::new(Action::Chat, vec![pair("response", "say \"hi\"\n")]);
    assert_eq!(
        p.to_text(),
        "{\"action\":\"chat\",\"arguments\":{\"response\":\"say \\\"hi\\\"\\n\"}}"
    );
}

#[test]
fn parse_reads_packet_back() {
    let parsed =
        ActionPacket::parse("{\"action\":\"wiki_search\",\"arguments\":{\"query\":\"American Crow\"}}")
            .unwrap();
    assert_eq!(parsed.action, Action::Tool(AssistantTool::WikiSearch));
    assert_eq!(parsed.arguments, vec![pair("query", "American Crow")]);
}

#[test]
fn parse_accepts_whitespace() {
    let parsed =
        ActionPacket::parse(" { \"action\" : \"chat\" , \"arguments\" : { } } ").unwrap();
    assert_eq!(parsed.action, Action::Chat);
    assert!(parsed.arguments.is_empty());
}

#[test]
fn parse_rejects_free_text() {
    assert_eq!(
        ActionPacket::parse("hello there"),
        Err(ChatError::DecodeError)
    );
}

#[test]
fn parse_rejects_missing_fields() {
    assert_eq!(
        ActionPacket::parse("{\"action\":\"chat\"}"),
        Err(ChatError::DecodeError)
    );
    assert_eq!(
        ActionPacket::parse("{\"arguments\":{}}"),
        Err(ChatError::DecodeError)
    );
}

#[test]
fn parse_rejects_non_string_arguments() {
    assert_eq!(
        ActionPacket::parse("{\"action\":\"chat\",\"arguments\":{\"n\":5}}"),
        Err(ChatError::DecodeError)
    );
}

#[test]
fn parse_rejects_unknown_action() {
    assert_eq!(
        ActionPacket::parse("{\"action\":\"teleport\",\"arguments\":{}}"),
        Err(ChatError::UnrecognizedTool)
    );
}

#[test]
fn parse_reply_reads_the_nested_packet() {
    let body = "{\"model\":\"m\",\"created_at\":\"now\",\"message\":{\"role\":\"assistant\",\
        \"content\":\"{\\\"action\\\":\\\"chat\\\",\\\"arguments\\\":{\\\"response\\\":\\\"Hi\\\"}}\"},\"done\":true}";
    let packet = oxichat::packet::parse_reply(body).unwrap();
    assert_eq!(packet.action, Action::Chat);
    assert_eq!(packet.arguments, vec![pair("response", "Hi")]);
}

#[test]
fn parse_reply_rejects_plain_content() {
    let body = "{\"message\":{\"role\":\"assistant\",\"content\":\"just words\"}}";
    assert_eq!(
        oxichat::packet::parse_reply(body),
        Err(ChatError::DecodeError)
    );
}

#[test]
fn parse_reply_rejects_missing_message() {
    assert_eq!(
        oxichat::packet::parse_reply("{\"model\":\"m\"}"),
        Err(ChatError::DecodeError)
    );
    assert_eq!(
        oxichat::packet::parse_reply("not a document"),
        Err(ChatError::DecodeError)
    );
}

#[test]
fn message_turns_into_prompt() {
    let m = Message::new(
        MessageRoles::User,
        Action::Chat,
        vec![pair("response", "Hello")],
    );
    let p = m.to_prompt();
    assert_eq!(p.role, "user");
    assert_eq!(
        p.content,
        "{\"action\":\"chat\",\"arguments\":{\"response\":\"Hello\"}}"
    );
}

#[test]
fn message_renders_content_and_display_line() {
    let m = Message::new(
        MessageRoles::Assistant,
        Action::Chat,
        vec![pair("response", "ok")],
    );
    assert_eq!(
        m.content_text(),
        "{\"action\":\"chat\",\"arguments\":{\"response\":\"ok\"}}"
    );
    assert_eq!(
        m.display_line(),
        "assistant: {\"action\":\"chat\",\"arguments\":{\"response\":\"ok\"}}"
    );
}

#[test]
fn message_from_parts() {
    let m = Message::from((
        MessageRoles::Assistant,
        Action::Chat,
        vec![pair("response", "ok")],
    ));
    assert_eq!(m.role, MessageRoles::Assistant);
    assert_eq!(m.content.action, Action::Chat);
    assert_eq!(m.content.arguments, vec![pair("response", "ok")]);
}

#[test]
fn errors_describe_themselves() {
    assert_eq!(ChatError::NetworkError.describe(), "network error");
    assert_eq!(
        ChatError::ToolRecursionLimit.describe(),
        "tool-call chain exceeded the depth bound"
    );
    assert_eq!(
        ChatError::TerminalIOError.describe(),
        "terminal could not be set up or restored"
    );
}
