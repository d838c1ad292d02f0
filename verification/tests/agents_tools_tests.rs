use agent_core::agents::{get_agent_descriptions, get_agent_types};
use agent_core::skills::SkillLoader;
use agent_core::tools::{
    create_all_tools, create_base_tools, create_skill_tool, create_task_tool, get_tools_for_agent,
    get_tools_for_subagent,
};

#[test]
fn test_get_agent_types() {
    let types = get_agent_types();
    assert!(types.contains_key("explore"));
    assert!(types.contains_key("code"));
    assert!(types.contains_key("plan"));
    assert_eq!(types.len(), 3);
}

#[test]
fn test_get_agent_descriptions_lists_all_types() {
    let descriptions = get_agent_descriptions();
    assert!(descriptions.contains("- explore: Read-only agent"));
    assert!(descriptions.contains("- code: Full agent"));
    assert!(descriptions.contains("- plan: Planning agent"));
}

#[test]
fn test_create_all_tools_names() {
    let loader = SkillLoader::new();
    let tools = create_all_tools(&loader);
    let names: Vec<&str> = tools.iter().map(|t| t.name.as_str()).collect();
    assert!(names.contains(&"bash"));
    assert!(names.contains(&"read_file"));
    assert!(names.contains(&"write_file"));
    assert!(names.contains(&"edit_file"));
    assert!(names.contains(&"TodoWrite"));
    assert!(names.contains(&"Task"));
    assert!(names.contains(&"Skill"));
    assert!(names.contains(&"web_search"));
    assert_eq!(tools.len(), 8);
}

#[test]
fn test_create_base_tools_names() {
    let tools = create_base_tools();
    let names: Vec<&str> = tools.iter().map(|t| t.name.as_str()).collect();
    assert_eq!(
        names,
        vec!["bash", "read_file", "write_file", "edit_file", "web_search", "TodoWrite"]
    );
}

#[test]
fn test_get_tools_for_agent_explore() {
    let tools = get_tools_for_agent("explore");
    let names: Vec<&str> = tools.iter().map(|t| t.name.as_str()).collect();

    // Explore should only have bash and read_file
    assert!(names.contains(&"bash"));
    assert!(names.contains(&"read_file"));
    assert!(!names.contains(&"write_file"));
    assert!(!names.contains(&"edit_file"));
    assert_eq!(tools.len(), 2);
}

#[test]
fn test_get_tools_for_agent_plan() {
    let tools = get_tools_for_agent("plan");
    let names: Vec<&str> = tools.iter().map(|t| t.name.as_str()).collect();

    // Plan should only have bash and read_file
    assert!(names.contains(&"bash"));
    assert!(names.contains(&"read_file"));
    assert!(!names.contains(&"write_file"));
    assert_eq!(tools.len(), 2);
}

#[test]
fn test_get_tools_for_agent_code_gets_all_base_tools() {
    let tools = get_tools_for_agent("code");
    let names: Vec<&str> = tools.iter().map(|t| t.name.as_str()).collect();
    assert_eq!(
        names,
        vec!["bash", "read_file", "write_file", "edit_file", "web_search", "TodoWrite"]
    );
}

#[test]
fn test_get_tools_for_agent_unknown_is_empty() {
    assert!(get_tools_for_agent("janitor").is_empty());
}

#[test]
fn test_subagent_tools_never_include_task() {
    let loader = SkillLoader::new();
    for agent_type in ["explore", "code", "plan"] {
        let tools = get_tools_for_subagent(agent_type, &loader);
        assert!(tools.iter().all(|t| t.name != "Task"));
        // Known types do get the Skill tool.
        assert!(tools.iter().any(|t| t.name == "Skill"));
    }
    assert!(get_tools_for_subagent("janitor", &loader).is_empty());
}

#[test]
fn test_task_tool_describes_agent_types() {
    let tool = create_task_tool();
    assert_eq!(tool.name, "Task");
    assert!(tool.description.contains("- explore:"));
    assert!(tool.description.contains("- code:"));
    assert!(tool.description.contains("- plan:"));
    assert!(tool.input_schema.contains("agent_type"));
}

#[test]
fn test_skill_tool_describes_loaded_skills() {
    let mut loader = SkillLoader::new();
    loader.add_unit(
        "---\nname: pdf\ndescription: Process PDF files\n---\nbody\n",
        "skills/pdf".to_string(),
        Vec::new(),
    );
    let tool = create_skill_tool(&loader);
    assert_eq!(tool.name, "Skill");
    assert!(tool.description.contains("- pdf: Process PDF files"));
}

#[test]
fn test_get_bash_tool() {
    let tool = agent_core::tools::get_bash_tool("v0_bash_agent");
    assert_eq!(tool.name, "bash");
    assert!(tool.description.contains("Execute shell command"));
    assert!(tool.description.contains("Subagent"));
}
