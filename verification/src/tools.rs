//! Tool definitions: the schemas the model is offered, and the
//! filtering that gives each agent type its toolset. A subagent's
//! toolset never includes the delegation tool, which is what keeps
//! spawning from nesting without bound.

use vstd::prelude::*;
use vstd::string::*;

use crate::agents::{agent_index_from, agent_registry_spec, get_agent_types};
use crate::skills::{descriptions_spec, SkillLoader};
use crate::text::str_eq;

verus! {

broadcast use vstd::string::group_string_axioms;

/// JSON Schema for the shell tool's input.
pub const BASH_SCHEMA: &'static str = "{\"type\":\"object\",\"properties\":{\"command\":{\"type\":\"string\",\"description\":\"The shell command to execute\"}},\"required\":[\"command\"]}";

/// JSON Schema for the file-read tool's input.
pub const READ_FILE_SCHEMA: &'static str = "{\"type\":\"object\",\"properties\":{\"path\":{\"type\":\"string\",\"description\":\"Relative path to the file\"},\"limit\":{\"type\":\"integer\",\"description\":\"Max lines to read (default: all)\"}},\"required\":[\"path\"]}";

/// JSON Schema for the file-write tool's input.
pub const WRITE_FILE_SCHEMA: &'static str = "{\"type\":\"object\",\"properties\":{\"path\":{\"type\":\"string\",\"description\":\"Relative path for the file\"},\"content\":{\"type\":\"string\",\"description\":\"Content to write\"}},\"required\":[\"path\",\"content\"]}";

/// JSON Schema for the file-edit tool's input.
pub const EDIT_FILE_SCHEMA: &'static str = "{\"type\":\"object\",\"properties\":{\"path\":{\"type\":\"string\",\"description\":\"Relative path to the file\"},\"old_text\":{\"type\":\"string\",\"description\":\"Exact text to find (must match precisely)\"},\"new_text\":{\"type\":\"string\",\"description\":\"Replacement text\"}},\"required\":[\"path\",\"old_text\",\"new_text\"]}";

/// JSON Schema for the web-search tool's input.
pub const WEB_SEARCH_SCHEMA: &'static str = "{\"type\":\"object\",\"properties\":{\"query\":{\"type\":\"string\",\"description\":\"The search query to find information about\"},\"max_results\":{\"type\":\"integer\",\"description\":\"Maximum number of results to return (default: 5)\",\"minimum\":1,\"maximum\":10}},\"required\":[\"query\"]}";

/// JSON Schema for the todo tool's input.
pub const TODO_WRITE_SCHEMA: &'static str = "{\"type\":\"object\",\"properties\":{\"items\":{\"type\":\"array\",\"description\":\"Complete list of tasks (replaces existing)\",\"items\":{\"type\":\"object\",\"properties\":{\"content\":{\"type\":\"string\",\"description\":\"Task description\"},\"status\":{\"type\":\"string\",\"enum\":[\"pending\",\"in_progress\",\"completed\"],\"description\":\"Task status\"},\"activeForm\":{\"type\":\"string\",\"description\":\"Present tense action, e.g. 'Reading files'\"}},\"required\":[\"content\",\"status\",\"activeForm\"]}}},\"required\":[\"items\"]}";

/// JSON Schema for the delegation tool's input.
pub const TASK_SCHEMA: &'static str = "{\"type\":\"object\",\"properties\":{\"description\":{\"type\":\"string\",\"description\":\"Short task name (3-5 words) for progress display\"},\"prompt\":{\"type\":\"string\",\"description\":\"Detailed instructions for the subagent\"},\"agent_type\":{\"type\":\"string\",\"enum\":[\"explore\",\"code\",\"plan\"],\"description\":\"Type of agent to spawn\"}},\"required\":[\"description\",\"prompt\",\"agent_type\"]}";

/// JSON Schema for the skill tool's input.
pub const SKILL_SCHEMA: &'static str = "{\"type\":\"object\",\"properties\":{\"skill\":{\"type\":\"string\",\"description\":\"Name of the skill to load\"}},\"required\":[\"skill\"]}";

/// One tool as offered to the model: a name, a description, and a JSON
/// Schema (as source text) for its input.
#[derive(Clone, Debug)]
pub struct ToolSpec {
    pub name: String,
    pub description: String,
    pub input_schema: String,
}

/// Mathematical image of a tool.
#[verifier::ext_equal]
pub ghost struct ToolSpecView {
    pub name: Seq<char>,
    pub description: Seq<char>,
    pub input_schema: Seq<char>,
}

impl View for ToolSpec {
    type V = ToolSpecView;

    open spec fn view(&self) -> ToolSpecView {
        ToolSpecView {
            name: self.name@,
            description: self.description@,
            input_schema: self.input_schema@,
        }
    }
}

impl DeepView for ToolSpec {
    type V = ToolSpecView;

    open spec fn deep_view(&self) -> ToolSpecView {
        self.view()
    }
}

/// The base toolset offered to every loop: shell, file read, write and
/// edit, web search, and the todo tool.
pub open spec fn base_tools_spec() -> Seq<ToolSpecView> {
    seq![
        ToolSpecView {
            name: "bash"@,
            description: "Run a shell command."@,
            input_schema: BASH_SCHEMA@,
        },
        ToolSpecView {
            name: "read_file"@,
            description: "Read file contents."@,
            input_schema: READ_FILE_SCHEMA@,
        },
        ToolSpecView {
            name: "write_file"@,
            description: "Write content to file."@,
            input_schema: WRITE_FILE_SCHEMA@,
        },
        ToolSpecView {
            name: "edit_file"@,
            description: "Replace exact text in file."@,
            input_schema: EDIT_FILE_SCHEMA@,
        },
        ToolSpecView {
            name: "web_search"@,
            description: "Search the web using DuckDuckGo. Use this to find current information about any topic."@,
            input_schema: WEB_SEARCH_SCHEMA@,
        },
        ToolSpecView {
            name: "TodoWrite"@,
            description: "Update the task list. Use to plan and track progress."@,
            input_schema: TODO_WRITE_SCHEMA@,
        },
    ]
}

/// Build the base toolset.
pub fn create_base_tools() -> (r: Vec<ToolSpec>)
    ensures
        r.deep_view() == base_tools_spec(),
{
    let mut tools: Vec<ToolSpec> = Vec::new();
    tools.push(
        ToolSpec {
            name: String::from_str("bash"),
            description: String::from_str("Run a shell command."),
            input_schema: String::from_str(BASH_SCHEMA),
        },
    );
    tools.push(
        ToolSpec {
            name: String::from_str("read_file"),
            description: String::from_str("Read file contents."),
            input_schema: String::from_str(READ_FILE_SCHEMA),
        },
    );
    tools.push(
        ToolSpec {
            name: String::from_str("write_file"),
            description: String::from_str("Write content to file."),
            input_schema: String::from_str(WRITE_FILE_SCHEMA),
        },
    );
    tools.push(
        ToolSpec {
            name: String::from_str("edit_file"),
            description: String::from_str("Replace exact text in file."),
            input_schema: String::from_str(EDIT_FILE_SCHEMA),
        },
    );
    tools.push(
        ToolSpec {
            name: String::from_str("web_search"),
            description: String::from_str(
                "Search the web using DuckDuckGo. Use this to find current information about any topic.",
            ),
            input_schema: String::from_str(WEB_SEARCH_SCHEMA),
        },
    );
    tools.push(
        ToolSpec {
            name: String::from_str("TodoWrite"),
            description: String::from_str("Update the task list. Use to plan and track progress."),
            input_schema: String::from_str(TODO_WRITE_SCHEMA),
        },
    );
    proof {
        assert(tools.deep_view() =~~= base_tools_spec());
    }
    tools
}

/// The delegation tool's description, built over the agent types.
pub open spec fn task_tool_description_spec() -> Seq<char> {
    "Spawn a subagent for a focused subtask.\n\nAgent types:\n"@ + crate::agents::agent_desc_lines(
        agent_registry_spec(),
    )
        + "\n\nExample uses:\n- Task(explore): \"Find all files using the auth module\"\n- Task(plan): \"Design a migration strategy for the database\"\n- Task(code): \"Implement the user registration form\"\n"@
}

/// Build the delegation tool.
pub fn create_task_tool() -> (r: ToolSpec)
    ensures
        r@ == (ToolSpecView {
            name: "Task"@,
            description: task_tool_description_spec(),
            input_schema: TASK_SCHEMA@,
        }),
{
    let mut description = String::from_str(
        "Spawn a subagent for a focused subtask.\n\nAgent types:\n",
    );
    let agent_descriptions = crate::agents::get_agent_descriptions();
    description.append(agent_descriptions.as_str());
    description.append(
        "\n\nExample uses:\n- Task(explore): \"Find all files using the auth module\"\n- Task(plan): \"Design a migration strategy for the database\"\n- Task(code): \"Implement the user registration form\"\n",
    );
    let r = ToolSpec {
        name: String::from_str("Task"),
        description,
        input_schema: String::from_str(TASK_SCHEMA),
    };
    proof {
        assert(r@ =~~= (ToolSpecView {
            name: "Task"@,
            description: task_tool_description_spec(),
            input_schema: TASK_SCHEMA@,
        }));
    }
    r
}

/// The skill tool's description, built over the loaded skills.
pub open spec fn skill_tool_description_spec(skills: Seq<crate::skills::SkillView>) -> Seq<char> {
    "Load a skill to gain specialized knowledge for a task.\n\nAvailable skills:\n"@
        + descriptions_spec(skills)
        + "\n\nWhen to use:\n- IMMEDIATELY when user task matches a skill description\n- Before attempting domain-specific work (PDF, MCP, etc.)\n\nThe skill content will be injected into the conversation, giving you\ndetailed instructions and access to resources."@
}

/// Build the skill tool over the loaded skills.
pub fn create_skill_tool(skill_loader: &SkillLoader) -> (r: ToolSpec)
    ensures
        r@ == (ToolSpecView {
            name: "Skill"@,
            description: skill_tool_description_spec(skill_loader@),
            input_schema: SKILL_SCHEMA@,
        }),
{
    let mut description = String::from_str(
        "Load a skill to gain specialized knowledge for a task.\n\nAvailable skills:\n",
    );
    let skill_descriptions = skill_loader.get_descriptions();
    description.append(skill_descriptions.as_str());
    description.append(
        "\n\nWhen to use:\n- IMMEDIATELY when user task matches a skill description\n- Before attempting domain-specific work (PDF, MCP, etc.)\n\nThe skill content will be injected into the conversation, giving you\ndetailed instructions and access to resources.",
    );
    let r = ToolSpec {
        name: String::from_str("Skill"),
        description,
        input_schema: String::from_str(SKILL_SCHEMA),
    };
    proof {
        assert(r@ =~~= (ToolSpecView {
            name: "Skill"@,
            description: skill_tool_description_spec(skill_loader@),
            input_schema: SKILL_SCHEMA@,
        }));
    }
    r
}

/// All tools of the top-level loop: the base toolset, the delegation
/// tool, and the skill tool.
pub fn create_all_tools(skill_loader: &SkillLoader) -> (r: Vec<ToolSpec>)
    ensures
        r.deep_view() == base_tools_spec().push(
            ToolSpecView {
                name: "Task"@,
                description: task_tool_description_spec(),
                input_schema: TASK_SCHEMA@,
            },
        ).push(
            ToolSpecView {
                name: "Skill"@,
                description: skill_tool_description_spec(skill_loader@),
                input_schema: SKILL_SCHEMA@,
            },
        ),
{
    let mut tools = create_base_tools();
    tools.push(create_task_tool());
    tools.push(create_skill_tool(skill_loader));
    proof {
        assert(tools.deep_view() =~~= base_tools_spec().push(
            ToolSpecView {
                name: "Task"@,
                description: task_tool_description_spec(),
                input_schema: TASK_SCHEMA@,
            },
        ).push(
            ToolSpecView {
                name: "Skill"@,
                description: skill_tool_description_spec(skill_loader@),
                input_schema: SKILL_SCHEMA@,
            },
        ));
    }
    tools
}

/// Does the sequence hold this string?
fn vec_contains_str(v: &Vec<String>, s: &str) -> (r: bool)
    ensures
        r == v.deep_view().contains(s@),
{
    let n = v.len();
    let mut i: usize = 0;
    while i < n
        invariant
            i <= n,
            n == v@.len(),
            forall|j: int| 0 <= j < i ==> v.deep_view()[j] != s@,
        decreases n - i,
    {
        if str_eq(v[i].as_str(), s) {
            proof {
                assert(v.deep_view()[i as int] == s@);
            }
            return true;
        }
        i = i + 1;
    }
    proof {
        assert(!v.deep_view().contains(s@));
    }
    false
}

/// The tools of `base` whose names the allowlist holds, in base order.
pub open spec fn allowed_tools(base: Seq<ToolSpecView>, allowed: Seq<Seq<char>>) -> Seq<
    ToolSpecView,
>
    decreases base.len(),
{
    if base.len() == 0 {
        Seq::empty()
    } else {
        allowed_tools(base.drop_last(), allowed) + if allowed.contains(base.last().name) {
            seq![base.last()]
        } else {
            Seq::<ToolSpecView>::empty()
        }
    }
}

/// Every tool kept by the allowlist has its name in the allowlist.
proof fn lemma_allowed_tools_names(base: Seq<ToolSpecView>, allowed: Seq<Seq<char>>)
    ensures
        forall|i: int| 0 <= i < allowed_tools(base, allowed).len() ==> allowed.contains(
            (#[trigger] allowed_tools(base, allowed)[i]).name,
        ),
    decreases base.len(),
{
    if base.len() > 0 {
        lemma_allowed_tools_names(base.drop_last(), allowed);
        let r = allowed_tools(base, allowed);
        let rp = allowed_tools(base.drop_last(), allowed);
        assert forall|i: int| 0 <= i < r.len() implies allowed.contains((#[trigger] r[i]).name) by {
            if i < rp.len() {
                assert(r[i] == rp[i]);
            } else {
                assert(allowed.contains(base.last().name));
                assert(r[i] == base.last());
            }
        }
    }
}

/// The toolset an agent type is allowed: nothing for an unknown type,
/// every base tool when its allowlist holds `*`, else the base tools
/// whose names its allowlist holds.
pub open spec fn tools_for_agent_spec(name: Seq<char>) -> Seq<ToolSpecView> {
    let reg = agent_registry_spec();
    let i = agent_index_from(reg, name, 0);
    if i >= reg.len() {
        Seq::empty()
    } else {
        let allowed = reg[i].config.tools;
        if allowed.contains("*"@) {
            base_tools_spec()
        } else {
            allowed_tools(base_tools_spec(), allowed)
        }
    }
}

/// Filter the base toolset down to what an agent type may use.
pub fn get_tools_for_agent(agent_type: &str) -> (r: Vec<ToolSpec>)
    ensures
        r.deep_view() == tools_for_agent_spec(agent_type@),
{
    let registry = get_agent_types();
    let config = match registry.get(agent_type) {
        Some(cfg) => cfg,
        None => {
            let empty: Vec<ToolSpec> = Vec::new();
            proof {
                assert(empty.deep_view() =~= Seq::<ToolSpecView>::empty());
            }
            return empty;
        },
    };
    let base_tools = create_base_tools();
    if vec_contains_str(&config.tools, "*") {
        return base_tools;
    }
    let ghost allowed = config.tools.deep_view();
    let ghost base = base_tools.deep_view();
    let n = base_tools.len();
    let mut out: Vec<ToolSpec> = Vec::new();
    let mut i: usize = 0;
    while i < n
        invariant
            i <= n,
            n == base_tools@.len(),
            base == base_tools.deep_view(),
            allowed == config.tools.deep_view(),
            out.deep_view() =~= allowed_tools(base.take(i as int), allowed),
        decreases n - i,
    {
        proof {
            assert(base.take(i + 1).drop_last() =~= base.take(i as int));
            assert(base.take(i + 1).last() == base[i as int]);
        }
        let keep = vec_contains_str(&config.tools, base_tools[i].name.as_str());
        if keep {
            let ghost before = out.deep_view();
            out.push(base_tools[i].clone_tool());
            proof {
                assert(out.deep_view() =~= before.push(base[i as int]));
            }
        }
        proof {
            assert(out.deep_view() =~= allowed_tools(base.take(i + 1), allowed));
        }
        i = i + 1;
    }
    proof {
        assert(base.take(n as int) =~= base);
    }
    out
}

impl ToolSpec {
    /// A copy of this tool.
    pub fn clone_tool(&self) -> (r: ToolSpec)
        ensures
            r@ == self@,
    {
        ToolSpec {
            name: self.name.clone(),
            description: self.description.clone(),
            input_schema: self.input_schema.clone(),
        }
    }
}

/// The toolset handed to a spawned subagent: the agent type's allowed
/// base tools plus the skill tool — and never the delegation tool, so a
/// subagent cannot spawn further subagents.
pub fn get_tools_for_subagent(agent_type: &str, skill_loader: &SkillLoader) -> (r: Vec<ToolSpec>)
    ensures
        r.deep_view() == if agent_index_from(agent_registry_spec(), agent_type@, 0)
            < agent_registry_spec().len() {
            tools_for_agent_spec(agent_type@).push(
                ToolSpecView {
                    name: "Skill"@,
                    description: skill_tool_description_spec(skill_loader@),
                    input_schema: SKILL_SCHEMA@,
                },
            )
        } else {
            tools_for_agent_spec(agent_type@)
        },
        forall|i: int| 0 <= i < r.deep_view().len() ==> (#[trigger] r.deep_view()[i]).name
            != "Task"@,
{
    let mut tools = get_tools_for_agent(agent_type);
    let registry = get_agent_types();
    if registry.contains_key(agent_type) {
        let ghost before = tools.deep_view();
        tools.push(create_skill_tool(skill_loader));
        proof {
            assert(tools.deep_view() =~= before.push(
                ToolSpecView {
                    name: "Skill"@,
                    description: skill_tool_description_spec(skill_loader@),
                    input_schema: SKILL_SCHEMA@,
                },
            ));
        }
    }
    proof {
        lemma_no_task_tool(agent_type@);
        lemma_distinct_names();
    }
    tools
}

/// The fixed tool names all differ from the delegation tool's name.
proof fn lemma_distinct_names()
    ensures
        "bash"@ != "Task"@,
        "read_file"@ != "Task"@,
        "write_file"@ != "Task"@,
        "edit_file"@ != "Task"@,
        "web_search"@ != "Task"@,
        "TodoWrite"@ != "Task"@,
        "Skill"@ != "Task"@,
        "*"@ != "Task"@,
{
    reveal_strlit("Task");
    reveal_strlit("bash");
    reveal_strlit("read_file");
    reveal_strlit("write_file");
    reveal_strlit("edit_file");
    reveal_strlit("web_search");
    reveal_strlit("TodoWrite");
    reveal_strlit("Skill");
    reveal_strlit("*");
    assert("bash"@[0] == 'b' && "Task"@[0] == 'T');
    assert("read_file"@[0] == 'r');
    assert("write_file"@[0] == 'w');
    assert("edit_file"@[0] == 'e');
    assert("web_search"@[0] == 'w');
    assert("TodoWrite"@[1] == 'o' && "Task"@[1] == 'a');
    assert("Skill"@[0] == 'S');
    assert("*"@.len() == 1 && "Task"@.len() == 4);
}

/// No base tool, and so no filtered toolset, carries the delegation
/// tool's name.
proof fn lemma_no_task_tool(name: Seq<char>)
    ensures
        forall|i: int| 0 <= i < tools_for_agent_spec(name).len() ==> (
        #[trigger] tools_for_agent_spec(name)[i]).name != "Task"@,
{
    lemma_distinct_names();
    let base = base_tools_spec();
    assert(forall|i: int| 0 <= i < base.len() ==> (#[trigger] base[i]).name != "Task"@);
    let ts = tools_for_agent_spec(name);
    let reg = agent_registry_spec();
    let idx = agent_index_from(reg, name, 0);
    crate::agents::lemma_agent_index_from(reg, name, 0);
    if idx < reg.len() {
        let allowed = reg[idx].config.tools;
        if !allowed.contains("*"@) {
            lemma_allowed_tools_names(base, allowed);
            assert forall|i: int| 0 <= i < ts.len() implies (#[trigger] ts[i]).name != "Task"@ by {
                assert(allowed.contains(ts[i].name));
                let k = choose|k: int| 0 <= k < allowed.len() && allowed[k] == ts[i].name;
                assert(allowed[k] == ts[i].name);
            }
        }
    }
}

} // verus!

verus! {

/// The single shell tool of a shell-only loop. Its description teaches
/// the common command patterns and how to hand a self-contained task
/// to `agent_cmd` for isolated exploration.
pub fn get_bash_tool(agent_cmd: &str) -> (r: ToolSpec)
    ensures
        r@ == (ToolSpecView {
            name: "bash"@,
            description: "Execute shell command. Common patterns:\n- Read: cat/head/tail, grep/find/rg/ls, wc -l\n- Write: echo 'content' > file, sed -i 's/old/new/g' file\n- Subagent: "@
                + agent_cmd@
                + " 'task description' (spawns isolated agent, returns summary)"@,
            input_schema: BASH_SCHEMA@,
        }),
{
    let mut description = String::from_str(
        "Execute shell command. Common patterns:\n- Read: cat/head/tail, grep/find/rg/ls, wc -l\n- Write: echo 'content' > file, sed -i 's/old/new/g' file\n- Subagent: ",
    );
    description.append(agent_cmd);
    description.append(" 'task description' (spawns isolated agent, returns summary)");
    let r = ToolSpec {
        name: String::from_str("bash"),
        description,
        input_schema: String::from_str(BASH_SCHEMA),
    };
    proof {
        assert(r@ =~~= (ToolSpecView {
            name: "bash"@,
            description: "Execute shell command. Common patterns:\n- Read: cat/head/tail, grep/find/rg/ls, wc -l\n- Write: echo 'content' > file, sed -i 's/old/new/g' file\n- Subagent: "@
                + agent_cmd@
                + " 'task description' (spawns isolated agent, returns summary)"@,
            input_schema: BASH_SCHEMA@,
        }));
    }
    r
}

} // verus!
