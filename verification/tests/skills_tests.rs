use agent_core::skills::{parse_skill_md, run_skill, ResourceGroup, SkillLoader};

const PDF_MANIFEST: &str = "---\nname: pdf\ndescription: \"Process PDF files\"\n---\n# Steps\n1. Use pdftotext for extraction\n";

#[test]
fn test_parse_skill_md_valid() {
    let parsed = parse_skill_md(PDF_MANIFEST).expect("manifest should parse");
    assert_eq!(parsed.name, "pdf");
    assert_eq!(parsed.description, "Process PDF files");
    assert_eq!(parsed.body, "# Steps\n1. Use pdftotext for extraction");
}

#[test]
fn test_parse_skill_md_missing_description() {
    let content = "---\nname: pdf\n---\nbody text\n";
    assert!(parse_skill_md(content).is_none());
}

#[test]
fn test_parse_skill_md_no_front_matter() {
    assert!(parse_skill_md("# Just a heading\nsome text\n").is_none());
    assert!(parse_skill_md("").is_none());
}

#[test]
fn test_parse_skill_md_unclosed_front_matter() {
    assert!(parse_skill_md("---\nname: pdf\ndescription: d\nno closing fence\n").is_none());
    // A closing fence with no newline after it does not count.
    assert!(parse_skill_md("---\nname: pdf\ndescription: d\n---").is_none());
}

#[test]
fn test_parse_skill_md_quoted_and_spaced_values() {
    let content = "---\nname:   'spaced'  \ndescription: \"quoted value\"\n---\nbody\n";
    let parsed = parse_skill_md(content).unwrap();
    assert_eq!(parsed.name, "spaced");
    assert_eq!(parsed.description, "quoted value");
}

#[test]
fn test_skill_round_trip() {
    // A loaded manifest shows up in the descriptions, and resolving it
    // returns content carrying the literal body text.
    let mut loader = SkillLoader::new();
    let added = loader.add_unit(PDF_MANIFEST, "skills/pdf".to_string(), Vec::new());
    assert!(added);

    let descriptions = loader.get_descriptions();
    assert!(descriptions.contains("pdf: Process PDF files"));

    let content = loader.get_skill_content("pdf").expect("skill should resolve");
    assert!(content.contains("# Steps\n1. Use pdftotext for extraction"));
    assert!(content.starts_with("# Skill: pdf"));
}

#[test]
fn test_skill_resolve_unknown() {
    let loader = SkillLoader::new();
    assert!(loader.get_skill_content("pdf").is_none());
    assert_eq!(loader.get_descriptions(), "(no skills available)");
}

#[test]
fn test_skill_content_lists_resources() {
    let mut loader = SkillLoader::new();
    let resources = vec![
        ResourceGroup {
            label: "Scripts".to_string(),
            files: vec!["fill.py".to_string(), "merge.py".to_string()],
        },
        ResourceGroup {
            label: "References".to_string(),
            files: Vec::new(),
        },
    ];
    loader.add_unit(PDF_MANIFEST, "skills/pdf".to_string(), resources);
    let content = loader.get_skill_content("pdf").unwrap();
    assert!(content.contains("**Available resources in skills/pdf:**"));
    assert!(content.contains("- Scripts: fill.py, merge.py"));
    // Empty folders are not listed.
    assert!(!content.contains("References"));
}

#[test]
fn test_skill_insert_replaces_same_name() {
    let mut loader = SkillLoader::new();
    loader.add_unit(PDF_MANIFEST, "skills/pdf".to_string(), Vec::new());
    let updated = "---\nname: pdf\ndescription: Newer take on PDFs\n---\nnew body\n";
    loader.add_unit(updated, "skills/pdf2".to_string(), Vec::new());
    assert_eq!(loader.len(), 1);
    let descriptions = loader.get_descriptions();
    assert!(descriptions.contains("pdf: Newer take on PDFs"));
    assert!(!descriptions.contains("Process PDF files"));
}

#[test]
fn test_run_skill_known_and_unknown() {
    let mut loader = SkillLoader::new();
    loader.add_unit(PDF_MANIFEST, "skills/pdf".to_string(), Vec::new());

    let loaded = run_skill(&loader, "pdf");
    assert!(loaded.starts_with("<skill-loaded name=\"pdf\">"));
    assert!(loaded.contains("# Steps\n1. Use pdftotext for extraction"));
    assert!(loaded.contains("</skill-loaded>"));
    assert!(loaded.contains("Follow the instructions in the skill above"));

    let unknown = run_skill(&loader, "mcp");
    assert_eq!(unknown, "Error: Unknown skill 'mcp'. Available: pdf");

    let none = run_skill(&SkillLoader::new(), "mcp");
    assert_eq!(none, "Error: Unknown skill 'mcp'. Available: none");
}

#[test]
fn test_list_skills_names_in_load_order() {
    let mut loader = SkillLoader::new();
    loader.add_unit(PDF_MANIFEST, "a".to_string(), Vec::new());
    loader.add_unit(
        "---\nname: mcp-builder\ndescription: Build MCP servers\n---\nsteps\n",
        "b".to_string(),
        Vec::new(),
    );
    let names = loader.list_skills();
    assert_eq!(names, vec!["pdf".to_string(), "mcp-builder".to_string()]);
}
