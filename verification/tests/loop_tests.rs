use agent_core::orchestrator::{AgentLoop, LoopStep};
use agent_core::protocol::{
    extract_first_text, extract_tool_uses, ContentBlock, Message, ModelResponse, Role, StopReason,
    Usage,
};
use agent_core::skills::SkillLoader;
use agent_core::subagent::{spawn_subagent, subagent_result, SubagentProgress};

fn usage() -> Usage {
    Usage { input_tokens: 10, output_tokens: 5 }
}

fn user_text(text: &str) -> Message {
    Message { role: Role::User, content: vec![ContentBlock::text(text)] }
}

#[test]
fn test_tool_use_round_trip() {
    // A tool-use response yields one assistant message followed by one
    // user message holding exactly one result per tool use, correlated
    // by id, in response order.
    let mut agent = AgentLoop::new(vec![user_text("do the thing")], 160000, 3);
    let content = vec![
        ContentBlock::text("let me run some tools"),
        ContentBlock::ToolUse {
            id: "call_1".to_string(),
            name: "bash".to_string(),
            input: "{\"command\":\"ls\"}".to_string(),
        },
        ContentBlock::ToolUse {
            id: "call_2".to_string(),
            name: "read_file".to_string(),
            input: "{\"path\":\"a.txt\"}".to_string(),
        },
        ContentBlock::ToolUse {
            id: "call_3".to_string(),
            name: "Skill".to_string(),
            input: "{\"skill\":\"pdf\"}".to_string(),
        },
    ];
    let response = ModelResponse {
        stop_reason: Some(StopReason::ToolUse),
        content,
        usage: usage(),
    };
    let step = agent.on_response(response);
    let calls = match step {
        LoopStep::RunTools(calls) => calls,
        _ => panic!("expected a tool round"),
    };
    assert_eq!(calls.len(), 3);
    assert_eq!(calls[0].id, "call_1");
    assert_eq!(calls[1].id, "call_2");
    assert_eq!(calls[2].id, "call_3");
    assert_eq!(calls[0].name, "bash");

    let outputs = vec!["out one".to_string(), "out two".to_string(), "out three".to_string()];
    agent.on_tool_outputs(&calls, outputs);

    // history: initial user, assistant, user-with-results
    assert_eq!(agent.messages.len(), 3);
    assert!(matches!(agent.messages[1].role, Role::Assistant));
    let results = &agent.messages[2];
    assert!(matches!(results.role, Role::User));
    assert_eq!(results.content.len(), 3);
    for (i, expected_id) in ["call_1", "call_2", "call_3"].iter().enumerate() {
        match &results.content[i] {
            ContentBlock::ToolResult { tool_use_id, content, is_error } => {
                assert_eq!(tool_use_id, expected_id);
                assert!(!is_error);
                assert_eq!(
                    content,
                    ["out one", "out two", "out three"][i]
                );
            }
            _ => panic!("expected a tool result"),
        }
    }
}

#[test]
fn test_truncation_exhaustion() {
    // With a retry limit of 3, the third consecutive truncated response
    // terminates the loop fatally; no fourth call can be made.
    let mut agent = AgentLoop::new(vec![user_text("hard task")], 160000, 3);

    let truncated = |text: &str| ModelResponse {
        stop_reason: Some(StopReason::MaxTokens),
        content: vec![ContentBlock::text(text)],
        usage: usage(),
    };

    let first = agent.on_response(truncated("partial 1"));
    assert!(matches!(first, LoopStep::Retry));
    assert!(!agent.terminated);
    assert_eq!(agent.consecutive_truncations, 1);

    let second = agent.on_response(truncated("partial 2"));
    assert!(matches!(second, LoopStep::Retry));
    assert!(!agent.terminated);
    assert_eq!(agent.consecutive_truncations, 2);

    let history_before = agent.messages.len();
    let third = agent.on_response(truncated("partial 3"));
    match third {
        LoopStep::Fatal(message) => {
            assert!(message.contains("Response truncated 3 times in a row"));
            assert!(message.contains("MINI_CODE_MAX_OUTPUT_TOKENS"));
        }
        _ => panic!("expected the loop to go fatal"),
    }
    assert!(agent.terminated);
    // The fatal turn appends nothing.
    assert_eq!(agent.messages.len(), history_before);
}

#[test]
fn test_truncation_retry_appends_synthetic_note() {
    let mut agent = AgentLoop::new(vec![user_text("task")], 160000, 3);
    let step = agent.on_response(ModelResponse {
        stop_reason: Some(StopReason::MaxTokens),
        content: vec![ContentBlock::text("partial")],
        usage: usage(),
    });
    assert!(matches!(step, LoopStep::Retry));
    assert_eq!(agent.messages.len(), 3);
    assert!(matches!(agent.messages[1].role, Role::Assistant));
    match &agent.messages[2].content[0] {
        ContentBlock::Text { text } => assert!(text.contains("truncated")),
        _ => panic!("expected a text note"),
    }
}

#[test]
fn test_tool_use_resets_truncation_counter() {
    let mut agent = AgentLoop::new(vec![user_text("task")], 160000, 3);
    agent.on_response(ModelResponse {
        stop_reason: Some(StopReason::MaxTokens),
        content: vec![ContentBlock::text("partial")],
        usage: usage(),
    });
    assert_eq!(agent.consecutive_truncations, 1);
    agent.on_response(ModelResponse {
        stop_reason: Some(StopReason::ToolUse),
        content: vec![ContentBlock::ToolUse {
            id: "t".to_string(),
            name: "bash".to_string(),
            input: "{}".to_string(),
        }],
        usage: usage(),
    });
    assert_eq!(agent.consecutive_truncations, 0);
}

#[test]
fn test_end_turn_terminates_with_first_text() {
    let mut agent = AgentLoop::new(vec![user_text("task")], 160000, 3);
    let step = agent.on_response(ModelResponse {
        stop_reason: Some(StopReason::EndTurn),
        content: vec![
            ContentBlock::text("all done"),
            ContentBlock::text("second block"),
        ],
        usage: usage(),
    });
    match step {
        LoopStep::Done(text) => assert_eq!(text.unwrap(), "all done"),
        _ => panic!("expected the turn to end"),
    }
    assert!(agent.terminated);
    assert_eq!(agent.messages.len(), 2);
}

#[test]
fn test_next_max_tokens_shrinks_with_history() {
    let empty = AgentLoop::new(Vec::new(), 160000, 3);
    assert_eq!(empty.next_max_tokens(""), 80000);

    let grown = AgentLoop::new(vec![user_text(&"A".repeat(400000))], 160000, 3);
    // 100000 estimated tokens leave 100000, of which 40%.
    assert_eq!(grown.next_max_tokens(""), 40000);
}

#[test]
fn test_subagent_isolation() {
    // The nested conversation starts from exactly one user message
    // holding the task prompt, and nothing of the parent's history.
    let loader = SkillLoader::new();
    let run = spawn_subagent(&loader, "/work", "find auth code", "explore")
        .expect("explore is a known agent type");

    assert_eq!(run.nested.messages.len(), 1);
    assert!(matches!(run.nested.messages[0].role, Role::User));
    assert_eq!(run.nested.messages[0].content.len(), 1);
    match &run.nested.messages[0].content[0] {
        ContentBlock::Text { text } => assert_eq!(text, "find auth code"),
        _ => panic!("expected a plain text block"),
    }

    // Its loop state is fresh and independently bounded.
    assert_eq!(run.nested.consecutive_truncations, 0);
    assert!(!run.nested.terminated);
    assert_eq!(run.nested.max_truncation_retries, 2);
    assert_eq!(run.nested.max_output_tokens, 8000);

    // Its toolset never includes the delegation tool.
    assert!(run.tools.iter().all(|t| t.name != "Task"));

    assert!(run.system_prompt.contains("You are a explore subagent at /work."));
    assert!(run.system_prompt.contains("exploration agent"));
}

#[test]
fn test_spawn_subagent_unknown_type() {
    let loader = SkillLoader::new();
    match spawn_subagent(&loader, "/work", "do things", "janitor") {
        Err(e) => assert_eq!(e, "Error: Unknown agent type 'janitor'"),
        Ok(_) => panic!("an unknown agent type must not spawn"),
    }
}

#[test]
fn test_subagent_result_placeholder() {
    assert_eq!(subagent_result(Some("summary".to_string())), "summary");
    assert_eq!(subagent_result(None), "(subagent returned no text)");
}

#[test]
fn test_subagent_progress_counters_start_clear() {
    let progress = SubagentProgress::new();
    assert_eq!(progress.tool_count, 0);
    assert!(progress.current_tool.is_none());
}

#[test]
fn test_extract_tool_uses_preserves_order() {
    let content = vec![
        ContentBlock::ToolUse {
            id: "b".to_string(),
            name: "bash".to_string(),
            input: "{}".to_string(),
        },
        ContentBlock::text("interleaved"),
        ContentBlock::ToolUse {
            id: "a".to_string(),
            name: "read_file".to_string(),
            input: "{}".to_string(),
        },
    ];
    let calls = extract_tool_uses(&content);
    assert_eq!(calls.len(), 2);
    assert_eq!(calls[0].id, "b");
    assert_eq!(calls[1].id, "a");
}

#[test]
fn test_extract_first_text() {
    let content = vec![
        ContentBlock::ToolUse {
            id: "x".to_string(),
            name: "bash".to_string(),
            input: "{}".to_string(),
        },
        ContentBlock::text("first"),
        ContentBlock::text("second"),
    ];
    assert_eq!(extract_first_text(&content).unwrap(), "first");
    assert!(extract_first_text(&Vec::new()).is_none());
}
