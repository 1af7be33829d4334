use oxichat::chat::{Action, AssistantTool, ChatError, MessageRoles};
use oxichat::engine::{scroll_offset, AppState, Cmd, InputEvent, Msg, DEFAULT_DEPTH_LIMIT};
use oxichat::queues::Queues;

fn fresh() -> AppState {
    AppState::default("mistral:latest".to_string(), false, "sys prompt".to_string())
}

fn type_text(state: &mut AppState, text: &str) {
    for c in text.chars() {
        let cmd = state.handle_input(InputEvent::Char(c));
        assert!(cmd.is_none());
    }
}

/// A full service response document whose message content is the given
/// packet text, quoted and escaped as the wire nests it.
fn reply_body(packet: &str) -> String {
    let content = serde_json::to_string(packet).unwrap();
    format!(
        "{{\"model\":\"m\",\"created_at\":\"now\",\"message\":{{\"role\":\"assistant\",\"content\":{}}},\"done\":true}}",
        content
    )
}

fn chat_body(text: &str) -> String {
    reply_body(&format!(
        "{{\"action\":\"chat\",\"arguments\":{{\"response\":\"{}\"}}}}",
        text
    ))
}

fn wiki_body(query: &str) -> String {
    reply_body(&format!(
        "{{\"action\":\"wiki_search\",\"arguments\":{{\"query\":\"{}\"}}}}",
        query
    ))
}

#[test]
fn editing_changes_only_the_buffer() {
    let mut state = fresh();
    type_text(&mut state, "abc");
    assert_eq!(state.prompt_text(), "abc");
    assert!(state.handle_input(InputEvent::Backspace).is_none());
    assert_eq!(state.prompt_text(), "ab");
    assert!(!state.waiting);
    assert!(state.messages.is_empty());
    // Backspace on an empty buffer changes nothing.
    let mut empty = fresh();
    assert!(empty.handle_input(InputEvent::Backspace).is_none());
    assert_eq!(empty.prompt_text(), "");
}

#[test]
fn other_events_change_nothing() {
    let mut state = fresh();
    type_text(&mut state, "x");
    assert!(state.handle_input(InputEvent::Other).is_none());
    assert_eq!(state.prompt_text(), "x");
    assert!(!state.waiting);
}

#[test]
fn quit_emits_the_quit_command() {
    let mut state = fresh();
    let cmd = state.handle_input(InputEvent::Quit);
    assert!(matches!(cmd, Some(Cmd::Quit)));
    assert!(!state.waiting);
}

#[test]
fn submit_hello_enters_waiting_with_one_run_chat() {
    // Submitting "Hello" while Idle: the transcript gains one User entry
    // with arguments {"response": "Hello"}, and exactly one RunChat goes out.
    let mut state = fresh();
    type_text(&mut state, "Hello");
    let cmd = state.handle_input(InputEvent::Submit);
    assert!(state.waiting);
    assert_eq!(state.prompt_text(), "");
    assert_eq!(state.messages.len(), 1);
    let entry = &state.messages[0];
    assert_eq!(entry.role, MessageRoles::User);
    assert_eq!(entry.content.action, Action::Chat);
    assert_eq!(
        entry.content.arguments,
        vec![("response".to_string(), "Hello".to_string())]
    );
    match cmd {
        Some(Cmd::RunChat { req, depth }) => {
            assert_eq!(depth, 1);
            assert_eq!(req.model, "mistral:latest");
            assert!(!req.stream);
            assert_eq!(req.format, "json");
            assert_eq!(req.stop, vec!["\n\n\n\n".to_string()]);
            assert_eq!(req.messages.len(), 2);
            assert_eq!(req.messages[0].role, "system");
            assert_eq!(req.messages[0].content, "sys prompt");
            assert_eq!(req.messages[1].role, "user");
            assert_eq!(
                req.messages[1].content,
                "{\"action\":\"chat\",\"arguments\":{\"response\":\"Hello\"}}"
            );
        }
        other => panic!("expected one RunChat, got {:?}", other.is_some()),
    }
}

#[test]
fn chat_reply_returns_to_idle() {
    // The rest of the "Hello" scenario: the service answers with a chat
    // packet, the transcript gains the Assistant entry, waiting clears.
    let mut state = fresh();
    type_text(&mut state, "Hello");
    let _ = state.handle_input(InputEvent::Submit);
    let cmd = state.handle_http_done(Ok(chat_body("Hi there")));
    assert!(cmd.is_none());
    assert!(!state.waiting);
    assert_eq!(state.last_error, None);
    assert_eq!(state.messages.len(), 2);
    let entry = &state.messages[1];
    assert_eq!(entry.role, MessageRoles::Assistant);
    assert_eq!(entry.content.action, Action::Chat);
    assert_eq!(
        entry.content.arguments,
        vec![("response".to_string(), "Hi there".to_string())]
    );
}

#[test]
fn tool_chain_runs_two_dispatches() {
    // The crow scenario: a wiki_search response chains one tool run and a
    // second RunChat; the chat answer then closes the chain. Two RunChat
    // dispatches in total.
    let mut state = fresh();
    let mut run_chats = 0;
    type_text(&mut state, "Tell me about crows");
    let cmd = state.handle_input(InputEvent::Submit);
    assert!(matches!(cmd, Some(Cmd::RunChat { depth: 1, .. })));
    run_chats += 1;

    let cmd = state.handle_http_done(Ok(wiki_body("American Crow")));
    let (tool, arguments, depth) = match cmd {
        Some(Cmd::RunTool { tool, arguments, depth }) => (tool, arguments, depth),
        _ => panic!("expected a RunTool command"),
    };
    assert_eq!(tool, AssistantTool::WikiSearch);
    assert_eq!(
        arguments,
        vec![("query".to_string(), "American Crow".to_string())]
    );
    assert_eq!(depth, 1);
    assert!(state.waiting);
    assert_eq!(state.messages.len(), 2);
    assert_eq!(state.messages[1].role, MessageRoles::Assistant);
    assert_eq!(
        state.messages[1].content.action,
        Action::Tool(AssistantTool::WikiSearch)
    );

    let cmd = state.handle_tool_done(tool, "Corvus brachyrhynchos".to_string());
    match cmd {
        Some(Cmd::RunChat { depth, req }) => {
            assert_eq!(depth, 2);
            // system + user + assistant tool request + tool payload
            assert_eq!(req.messages.len(), 4);
        }
        _ => panic!("expected the chained RunChat"),
    }
    run_chats += 1;
    assert_eq!(state.messages.len(), 3);
    let tool_entry = &state.messages[2];
    assert_eq!(tool_entry.role, MessageRoles::Tool);
    assert_eq!(
        tool_entry.content.action,
        Action::Tool(AssistantTool::WikiSearch)
    );
    assert_eq!(
        tool_entry.content.arguments,
        vec![("result".to_string(), "Corvus brachyrhynchos".to_string())]
    );
    assert!(state.waiting);

    let cmd = state.handle_http_done(Ok(chat_body("Crows are corvids.")));
    assert!(cmd.is_none());
    assert!(!state.waiting);
    assert_eq!(state.messages.len(), 4);
    assert_eq!(state.messages[3].role, MessageRoles::Assistant);
    assert_eq!(run_chats, 2);
}

#[test]
fn recursion_limit_stops_an_infinite_tool_loop() {
    // A scripted response that always requests the same tool: the chain
    // fails with ToolRecursionLimit after exactly the configured depth of
    // RunChat dispatches, and never hangs.
    let limit = 3usize;
    let mut state = AppState::with_depth_limit(
        "m".to_string(),
        false,
        "sys".to_string(),
        limit,
    );
    type_text(&mut state, "loop forever");
    let mut run_chats = 0;
    let mut cmd = state.handle_input(InputEvent::Submit);
    let mut rounds = 0;
    loop {
        rounds += 1;
        assert!(rounds <= 2 * limit + 2, "the chain must terminate");
        match cmd {
            Some(Cmd::RunChat { .. }) => {
                run_chats += 1;
                cmd = state.handle_http_done(Ok(wiki_body("again")));
            }
            Some(Cmd::RunTool { tool, .. }) => {
                cmd = state.handle_tool_done(tool, "same as before".to_string());
            }
            _ => break,
        }
    }
    assert_eq!(run_chats, limit);
    assert_eq!(state.last_error, Some(ChatError::ToolRecursionLimit));
    assert!(!state.waiting);
}

#[test]
fn default_depth_limit_is_small() {
    assert_eq!(DEFAULT_DEPTH_LIMIT, 8);
    let state = fresh();
    assert_eq!(state.depth_limit, 8);
}

#[test]
fn network_failure_is_surfaced_not_fatal() {
    let mut state = fresh();
    type_text(&mut state, "hi");
    let _ = state.handle_input(InputEvent::Submit);
    let cmd = state.handle_http_done(Err(ChatError::NetworkError));
    assert!(cmd.is_none());
    assert!(!state.waiting);
    assert_eq!(state.last_error, Some(ChatError::NetworkError));
    // Transcript unchanged beyond the user's own entry.
    assert_eq!(state.messages.len(), 1);
}

#[test]
fn undecodable_body_is_a_decode_error() {
    let mut state = fresh();
    type_text(&mut state, "hi");
    let _ = state.handle_input(InputEvent::Submit);
    let cmd = state.handle_http_done(Ok("I will not speak JSON".to_string()));
    assert!(cmd.is_none());
    assert!(!state.waiting);
    assert_eq!(state.last_error, Some(ChatError::DecodeError));
    assert_eq!(state.messages.len(), 1);
}

#[test]
fn free_text_content_is_a_decode_error() {
    // A well-formed response document whose content is free text, not a
    // packet: the nested decoding pass rejects it.
    let mut state = fresh();
    type_text(&mut state, "hi");
    let _ = state.handle_input(InputEvent::Submit);
    let cmd = state.handle_http_done(Ok(reply_body("Hello! How can I help?")));
    assert!(cmd.is_none());
    assert!(!state.waiting);
    assert_eq!(state.last_error, Some(ChatError::DecodeError));
    assert_eq!(state.messages.len(), 1);
}

#[test]
fn unknown_tool_is_an_unrecognized_tool_error() {
    let mut state = fresh();
    type_text(&mut state, "hi");
    let _ = state.handle_input(InputEvent::Submit);
    let cmd = state.handle_http_done(Ok(reply_body(
        "{\"action\":\"teleport\",\"arguments\":{}}",
    )));
    assert!(cmd.is_none());
    assert!(!state.waiting);
    assert_eq!(state.last_error, Some(ChatError::UnrecognizedTool));
    assert_eq!(state.messages.len(), 1);
}

#[test]
fn invalid_tool_name_is_an_unrecognized_tool_error() {
    let mut state = fresh();
    type_text(&mut state, "hi");
    let _ = state.handle_input(InputEvent::Submit);
    let cmd = state.handle_http_done(Ok(reply_body(
        "{\"action\":\"invalid_tool\",\"arguments\":{}}",
    )));
    assert!(cmd.is_none());
    assert_eq!(state.last_error, Some(ChatError::UnrecognizedTool));
}

#[test]
fn stray_tool_payload_changes_nothing() {
    let mut state = fresh();
    let cmd = state.handle_tool_done(AssistantTool::WikiSearch, "stray".to_string());
    assert!(cmd.is_none());
    assert!(state.messages.is_empty());
    assert!(!state.waiting);
}

#[test]
fn probe_results_are_kept_for_display() {
    let mut state = fresh();
    state.handle_probe_done(Ok("203.0.113.7".to_string()));
    assert_eq!(state.probe_text, Some("203.0.113.7".to_string()));
    state.handle_probe_done(Err(ChatError::NetworkError));
    assert_eq!(state.last_error, Some(ChatError::NetworkError));
}

#[test]
fn drain_applies_every_queued_message() {
    // Two characters and a submit are queued before the redraw: the state
    // after the drain reflects all of them, never a subset.
    let mut state = fresh();
    let mut q = Queues::new();
    q.send_msg(Msg::Input(InputEvent::Char('h')));
    q.send_msg(Msg::Input(InputEvent::Char('i')));
    q.send_msg(Msg::Input(InputEvent::Submit));
    state.drain(&mut q);
    assert!(q.recv_msg().is_none());
    assert!(state.waiting);
    assert_eq!(state.messages.len(), 1);
    assert_eq!(
        state.messages[0].content.arguments,
        vec![("response".to_string(), "hi".to_string())]
    );
    // The emitted command went out toward the workers.
    assert!(matches!(q.recv_cmd(), Some(Cmd::RunChat { depth: 1, .. })));
    assert!(q.recv_cmd().is_none());
}

#[test]
fn drain_keeps_message_order() {
    let mut state = fresh();
    let mut q = Queues::new();
    q.send_msg(Msg::Input(InputEvent::Char('a')));
    q.send_msg(Msg::Input(InputEvent::Backspace));
    q.send_msg(Msg::Input(InputEvent::Char('b')));
    state.drain(&mut q);
    assert_eq!(state.prompt_text(), "b");
}

#[test]
fn drain_handles_every_message_kind() {
    // A submit, its finished chat call, a stray tool payload, and a probe
    // result, all queued before one redraw: the drained state reflects each
    // in order, and only the submit emitted a command.
    let mut state = fresh();
    let mut q = Queues::new();
    q.send_msg(Msg::Input(InputEvent::Char('y')));
    q.send_msg(Msg::Input(InputEvent::Submit));
    q.send_msg(Msg::HttpDone(Ok(chat_body("sure"))));
    q.send_msg(Msg::ToolDone { tool: AssistantTool::WebSearch, payload: "stray".to_string() });
    q.send_msg(Msg::ProbeDone(Ok("198.51.100.4".to_string())));
    state.drain(&mut q);
    assert!(q.recv_msg().is_none());
    assert!(!state.waiting);
    assert_eq!(state.messages.len(), 2);
    assert_eq!(state.messages[0].role, MessageRoles::User);
    assert_eq!(state.messages[1].role, MessageRoles::Assistant);
    assert_eq!(state.probe_text, Some("198.51.100.4".to_string()));
    assert!(matches!(q.recv_cmd(), Some(Cmd::RunChat { depth: 1, .. })));
    assert!(q.recv_cmd().is_none());
}

#[test]
fn input_line_shows_waiting_marker() {
    let mut state = fresh();
    type_text(&mut state, "hi");
    assert_eq!(state.input_line(), "> hi");
    let _ = state.handle_input(InputEvent::Submit);
    assert_eq!(state.input_line(), ">  (waiting...)");
}

#[test]
fn scroll_offset_keeps_the_tail_visible() {
    assert_eq!(scroll_offset(0, 10), 0);
    assert_eq!(scroll_offset(8, 10), 0);
    assert_eq!(scroll_offset(9, 10), 1);
    assert_eq!(scroll_offset(20, 10), 12);
    assert_eq!(scroll_offset(5, 1), 5);
    assert_eq!(scroll_offset(100000, 2), 65535);
}
