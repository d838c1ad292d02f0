use agent_core::calculate_max_tokens;
use agent_core::config::Config;
use agent_core::safe_truncate;
use agent_core::todo::TodoManager;

#[test]
fn main_test_safe_truncate_short_string() {
    let s = "Hello, World!";
    assert_eq!(safe_truncate(s, 100), "Hello, World!");
}

#[test]
fn main_test_safe_truncate_ascii() {
    let s = "Hello, World! This is a test.";
    let truncated = safe_truncate(s, 13);
    assert_eq!(truncated, "Hello, World!");
}

#[test]
fn main_test_safe_truncate_utf8() {
    let s = "你好世界abc";
    let truncated = safe_truncate(s, 13);
    assert_eq!(truncated, "你好世界a");
    assert!(truncated.len() <= 13);
}

#[test]
fn main_test_safe_truncate_emoji() {
    // Emoji are 4 bytes each
    let s = "😀😁😂abc";
    let truncated = safe_truncate(s, 9);
    // Should truncate to "😀😁" (8 bytes), not split into the third emoji
    assert_eq!(truncated, "😀😁");
}

#[test]
fn main_test_config_system_prompt() {
    let config = Config {
        model: "test-model".to_string(),
        workdir: "/test/path".to_string(),
        max_output_tokens: 160000,
        max_truncation_retries: 3,
    };
    let prompt = config.system_prompt("(no skills available)", "- explore: read-only");
    assert!(prompt.contains("/test/path"));
    assert!(prompt.contains("coding agent"));
}

#[test]
fn main_test_todo_manager_new() {
    let manager = TodoManager::new();
    let rendered = manager.render();
    assert_eq!(rendered, "No todos.");
}

#[test]
fn main_test_calculate_max_tokens_basic() {
    let max_tokens = calculate_max_tokens(1000, 160000);
    assert_eq!(max_tokens, 79600);
}

#[test]
fn main_test_calculate_max_tokens_respects_minimum() {
    let max_tokens = calculate_max_tokens(198000, 160000);
    assert_eq!(max_tokens, 4000);
}

#[test]
fn main_test_calculate_max_tokens_respects_configured_max() {
    let max_tokens = calculate_max_tokens(1000, 8000);
    assert_eq!(max_tokens, 8000);
}

#[test]
fn main_test_calculate_max_tokens_high_configured() {
    let max_tokens = calculate_max_tokens(50000, 100000);
    assert_eq!(max_tokens, 60000);
}
