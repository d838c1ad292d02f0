use agent_core::config::Config;
use agent_core::get_system_prompt;
use agent_core::safe_truncate;

#[test]
fn test_safe_truncate_short_string() {
    let s = "Hello, World!";
    assert_eq!(safe_truncate(s, 100), "Hello, World!");
}

#[test]
fn test_safe_truncate_ascii() {
    let s = "Hello, World! This is a test.";
    let truncated = safe_truncate(s, 13);
    assert_eq!(truncated, "Hello, World!");
}

#[test]
fn test_safe_truncate_utf8() {
    // Chinese characters are 3 bytes each
    let s = "你好世界abc"; // 你好世界 = 12 bytes, a = 1 byte
    let truncated = safe_truncate(s, 13);
    // Should truncate to "你好世界a" (13 bytes), including the 'a'
    assert_eq!(truncated, "你好世界a");
    assert!(truncated.len() <= 13);

    // Test mid-character truncation: byte 13 would be in middle of 'b'
    let s2 = "你好世界😀"; // 你好世界 = 12 bytes, 😀 = 4 bytes (total 16)
    let truncated2 = safe_truncate(s2, 13);
    // Should truncate to just "你好世界" (12 bytes), not split the emoji
    assert_eq!(truncated2, "你好世界");
    assert!(truncated2.len() <= 13);
}

#[test]
fn test_safe_truncate_emoji() {
    // Emoji are 4 bytes each
    let s = "😀😁😂abc";
    let truncated = safe_truncate(s, 9);
    // Should truncate to "😀😁" (8 bytes), not split into the third emoji
    assert_eq!(truncated, "😀😁");
}

#[test]
fn test_safe_truncate_exact_boundary() {
    let s = "Hello";
    assert_eq!(safe_truncate(s, 5), "Hello");
}

#[test]
fn test_get_system_prompt() {
    let prompt = get_system_prompt("/work", "v0_bash_agent");
    assert!(prompt.contains("CLI agent"));
    assert!(prompt.contains("bash commands"));
    assert!(prompt.contains("subagent"));
}

#[test]
fn test_system_prompt_contains_required_info() {
    let prompt = get_system_prompt("/work", "v0_bash_agent");
    assert!(prompt.contains("CLI agent"));
    assert!(prompt.contains("bash commands"));
    assert!(prompt.contains("cat"));
    assert!(prompt.contains("grep"));
    assert!(prompt.contains("echo"));
    assert!(prompt.contains("v0_bash_agent"));
}

#[test]
fn test_config_system_prompt() {
    let config = Config {
        model: "test-model".to_string(),
        workdir: "/test/path".to_string(),
        max_output_tokens: 160000,
        max_truncation_retries: 3,
    };
    let prompt = config.system_prompt("(no skills available)", "- explore: read-only");
    assert!(prompt.contains("/test/path"));
    assert!(prompt.contains("coding agent"));
    assert!(prompt.contains("TodoWrite"));
}

#[test]
fn test_config_new_clamps_bounds() {
    let low = Config::new("m".to_string(), "/w".to_string(), Some(500), Some(0));
    assert_eq!(low.max_output_tokens, 1000);
    assert_eq!(low.max_truncation_retries, 1);

    let high = Config::new("m".to_string(), "/w".to_string(), Some(200000000), Some(20));
    assert_eq!(high.max_output_tokens, 100000000);
    assert_eq!(high.max_truncation_retries, 10);

    let defaults = Config::new("m".to_string(), "/w".to_string(), None, None);
    assert_eq!(defaults.max_output_tokens, 160000);
    assert_eq!(defaults.max_truncation_retries, 3);

    let kept = Config::new("m".to_string(), "/w".to_string(), Some(32000), Some(5));
    assert_eq!(kept.max_output_tokens, 32000);
    assert_eq!(kept.max_truncation_retries, 5);
}
