use agent_core::dispatch::{
    bash_precheck, cap_tool_output, dispatch_tool, format_bash_output, format_read_output,
    run_edit_content, write_result_message, ToolAction, ToolInput,
};
use agent_core::todo::{TodoItem, TodoStatus};

fn input_with_command(cmd: &str) -> ToolInput {
    let mut input = ToolInput::empty();
    input.command = Some(cmd.to_string());
    input
}

#[test]
fn test_dispatch_bash() {
    match dispatch_tool("bash", input_with_command("ls -la")) {
        ToolAction::RunBash { command } => assert_eq!(command, "ls -la"),
        _ => panic!("expected a shell action"),
    }
    match dispatch_tool("bash", ToolInput::empty()) {
        ToolAction::Reply { message } => {
            assert_eq!(message, "Error: Missing 'command' parameter")
        }
        _ => panic!("expected a reply"),
    }
}

#[test]
fn test_dispatch_unknown_tool() {
    match dispatch_tool("teleport", ToolInput::empty()) {
        ToolAction::Reply { message } => assert_eq!(message, "Unknown tool: teleport"),
        _ => panic!("expected a reply"),
    }
}

#[test]
fn test_dispatch_write_file_checks_params_in_order() {
    match dispatch_tool("write_file", ToolInput::empty()) {
        ToolAction::Reply { message } => assert_eq!(message, "Error: Missing 'path' parameter"),
        _ => panic!("expected a reply"),
    }
    let mut with_path = ToolInput::empty();
    with_path.path = Some("a.txt".to_string());
    match dispatch_tool("write_file", with_path) {
        ToolAction::Reply { message } => {
            assert_eq!(message, "Error: Missing 'content' parameter")
        }
        _ => panic!("expected a reply"),
    }
    let mut full = ToolInput::empty();
    full.path = Some("a.txt".to_string());
    full.content = Some("hello".to_string());
    match dispatch_tool("write_file", full) {
        ToolAction::WriteFile { path, content } => {
            assert_eq!(path, "a.txt");
            assert_eq!(content, "hello");
        }
        _ => panic!("expected a write action"),
    }
}

#[test]
fn test_dispatch_edit_file_checks_params_in_order() {
    let mut input = ToolInput::empty();
    input.path = Some("a.txt".to_string());
    match dispatch_tool("edit_file", input) {
        ToolAction::Reply { message } => {
            assert_eq!(message, "Error: Missing 'old_text' parameter")
        }
        _ => panic!("expected a reply"),
    }
    let mut input2 = ToolInput::empty();
    input2.path = Some("a.txt".to_string());
    input2.old_text = Some("x".to_string());
    match dispatch_tool("edit_file", input2) {
        ToolAction::Reply { message } => {
            assert_eq!(message, "Error: Missing 'new_text' parameter")
        }
        _ => panic!("expected a reply"),
    }
}

#[test]
fn test_dispatch_read_file_keeps_limit() {
    let mut input = ToolInput::empty();
    input.path = Some("a.txt".to_string());
    input.limit = Some(7);
    match dispatch_tool("read_file", input) {
        ToolAction::ReadFile { path, limit } => {
            assert_eq!(path, "a.txt");
            assert_eq!(limit, Some(7));
        }
        _ => panic!("expected a read action"),
    }
}

#[test]
fn test_dispatch_todo_write() {
    let mut input = ToolInput::empty();
    input.items = Some(vec![TodoItem {
        content: "a".to_string(),
        status: TodoStatus::Pending,
        active_form: "b".to_string(),
    }]);
    match dispatch_tool("TodoWrite", input) {
        ToolAction::UpdateTodo { items } => assert_eq!(items.len(), 1),
        _ => panic!("expected a todo action"),
    }
    match dispatch_tool("TodoWrite", ToolInput::empty()) {
        ToolAction::Reply { message } => assert_eq!(message, "Error: Missing 'items' parameter"),
        _ => panic!("expected a reply"),
    }
}

#[test]
fn test_dispatch_task_and_skill_defaults() {
    match dispatch_tool("Task", ToolInput::empty()) {
        ToolAction::SpawnTask { description, prompt, agent_type } => {
            assert_eq!(description, "subtask");
            assert_eq!(prompt, "");
            assert_eq!(agent_type, "explore");
        }
        _ => panic!("expected a spawn action"),
    }
    match dispatch_tool("Skill", ToolInput::empty()) {
        ToolAction::LoadSkill { skill } => assert_eq!(skill, ""),
        _ => panic!("expected a skill action"),
    }
    let mut search = ToolInput::empty();
    search.query = Some("verus verifier".to_string());
    match dispatch_tool("web_search", search) {
        ToolAction::WebSearch { query, max_results } => {
            assert_eq!(query, "verus verifier");
            assert_eq!(max_results, 5);
        }
        _ => panic!("expected a search action"),
    }
}

#[test]
fn test_bash_precheck_blocks_dangerous_commands() {
    assert_eq!(
        bash_precheck("rm -rf /").unwrap(),
        "Error: Dangerous command blocked"
    );
    assert!(bash_precheck("echo sudo").is_some());
    assert!(bash_precheck("shutdown -h now").is_some());
    assert!(bash_precheck("cat > /dev/sda").is_some());
    assert!(bash_precheck("echo 'test'").is_none());
    assert!(bash_precheck("ls -la").is_none());
}

#[test]
fn test_format_bash_output() {
    assert_eq!(format_bash_output("  \n "), "(no output)");
    assert_eq!(format_bash_output(""), "(no output)");
    assert_eq!(format_bash_output("  hello\nworld \n"), "hello\nworld");
}

#[test]
fn test_cap_tool_output_truncates_on_boundary() {
    let short = "short output";
    assert_eq!(cap_tool_output(short), "short output");

    let long = "x".repeat(60000);
    let capped = cap_tool_output(&long);
    assert!(capped.ends_with("...(truncated)"));
    assert_eq!(capped.len(), 50000 + "...(truncated)".len());

    // Multi-byte characters are never split.
    let wide = "你".repeat(20000); // 60000 bytes
    let capped_wide = cap_tool_output(&wide);
    assert!(capped_wide.ends_with("...(truncated)"));
    // 49998 bytes = 16666 whole characters; byte 50000 would split one.
    assert_eq!(capped_wide.len(), 49998 + "...(truncated)".len());
}

#[test]
fn test_write_result_message() {
    assert_eq!(write_result_message(11, "notes/a.txt"), "Wrote 11 bytes to notes/a.txt");
}

#[test]
fn test_run_edit_content_replaces_first_only() {
    let (new_content, message) = run_edit_content("aXbXc", "X", "-", "f.txt");
    assert_eq!(new_content.unwrap(), "a-bXc");
    assert_eq!(message, "Edited f.txt");

    let (missing, err) = run_edit_content("abc", "zzz", "-", "f.txt");
    assert!(missing.is_none());
    assert_eq!(err, "Error: Text not found in f.txt");
}

#[test]
fn test_format_read_output_limits_lines() {
    let content = "l1\nl2\nl3\nl4\nl5\n";
    assert_eq!(
        format_read_output(content, Some(2)),
        "l1\nl2\n... (3 more lines)"
    );
    // A limit at or above the line count changes nothing.
    assert_eq!(format_read_output(content, Some(5)), content);
    assert_eq!(format_read_output(content, None), content);
    assert_eq!(format_read_output(content, Some(0)), content);
    assert_eq!(format_read_output(content, Some(-3)), content);
}

#[test]
fn test_format_read_output_handles_crlf() {
    let content = "a\r\nb\r\nc\r\nd";
    assert_eq!(format_read_output(content, Some(1)), "a\n... (3 more lines)");
}
