use agent_core::calculate_max_tokens;
use agent_core::protocol::{estimate_context_tokens, ContentBlock, Message, Role};

#[test]
fn test_calculate_max_tokens_basic() {
    let context_tokens = 1000;
    let max_configured = 160000;
    let max_tokens = calculate_max_tokens(context_tokens, max_configured);

    // With 1000 context tokens:
    // Available: 200000 - 1000 = 199000
    // Output: 199000 * 0.4 = 79600
    // Should be 79600 (less than max_configured)
    assert_eq!(max_tokens, 79600);
}

#[test]
fn test_calculate_max_tokens_respects_minimum() {
    let context_tokens = 198000;
    let max_configured = 160000;
    let max_tokens = calculate_max_tokens(context_tokens, max_configured);

    // Should be increased to minimum 4000
    assert_eq!(max_tokens, 4000);
}

#[test]
fn test_calculate_max_tokens_respects_configured_max() {
    let context_tokens = 1000;
    let max_configured = 8000;
    let max_tokens = calculate_max_tokens(context_tokens, max_configured);

    assert_eq!(max_tokens, 8000);
}

#[test]
fn test_calculate_max_tokens_high_configured() {
    let context_tokens = 50000;
    let max_configured = 100000;
    let max_tokens = calculate_max_tokens(context_tokens, max_configured);

    // With 50000 context: 150000 available * 0.4 = 60000
    assert_eq!(max_tokens, 60000);
}

#[test]
fn test_calculate_max_tokens_exhausted_context() {
    // Context at or above the window still yields the floor.
    assert_eq!(calculate_max_tokens(200000, 160000), 4000);
    assert_eq!(calculate_max_tokens(1000000, 160000), 4000);
}

#[test]
fn test_estimate_context_tokens_empty() {
    let messages: Vec<Message> = vec![];
    let tokens = estimate_context_tokens(&messages);
    assert_eq!(tokens, 0);
}

#[test]
fn test_estimate_context_tokens_text() {
    let messages = vec![Message {
        role: Role::User,
        content: vec![ContentBlock::text("Hello World")],
    }];
    let tokens = estimate_context_tokens(&messages);
    assert!(tokens >= 2 && tokens <= 3);
}

#[test]
fn test_estimate_context_tokens_multiple_messages() {
    let messages = vec![
        Message {
            role: Role::User,
            content: vec![ContentBlock::text(&"A".repeat(400))],
        },
        Message {
            role: Role::Assistant,
            content: vec![ContentBlock::text(&"B".repeat(400))],
        },
    ];
    let tokens = estimate_context_tokens(&messages);
    assert!(tokens >= 195 && tokens <= 205);
}

#[test]
fn test_estimate_counts_tool_blocks() {
    // Tool inputs and outputs count toward the estimate too.
    let messages = vec![
        Message {
            role: Role::Assistant,
            content: vec![ContentBlock::ToolUse {
                id: "t1".to_string(),
                name: "bash".to_string(),
                input: "{\"command\":\"ls\"}".repeat(25),
            }],
        },
        Message {
            role: Role::User,
            content: vec![ContentBlock::ToolResult {
                tool_use_id: "t1".to_string(),
                content: "x".repeat(400),
                is_error: false,
            }],
        },
    ];
    let tokens = estimate_context_tokens(&messages);
    // 16*25/4 + 400/4 = 100 + 100
    assert_eq!(tokens, 200);
}
