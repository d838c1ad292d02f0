//! Subagent spawning: an isolated conversation seeded with nothing but
//! the task prompt, a specialized system prompt, a filtered toolset
//! without the delegation tool, and a nested loop instance with its own
//! truncation counter.

use vstd::prelude::*;
use vstd::string::*;

use crate::agents::{agent_index_from, agent_registry_spec, get_agent_types};
use crate::orchestrator::AgentLoop;
use crate::protocol::{ContentBlock, ContentBlockView, Message, MessageView, Role};
use crate::skills::SkillLoader;
use crate::tools::{
    get_tools_for_subagent, skill_tool_description_spec, tools_for_agent_spec, ToolSpec,
    ToolSpecView, SKILL_SCHEMA,
};

verus! {

/// Output-token ceiling for every nested model call.
pub const SUBAGENT_MAX_TOKENS: u32 = 8000;

/// Truncation budget of a nested loop: the second consecutive truncated
/// response is fatal to the subagent.
pub const SUBAGENT_TRUNCATION_RETRIES: usize = 2;

/// Progress counters for a running subagent; how they are displayed is
/// the caller's concern.
pub struct SubagentProgress {
    /// Tools the subagent has run so far.
    pub tool_count: usize,
    /// A short display form of the tool running right now, if any.
    pub current_tool: Option<String>,
}

impl SubagentProgress {
    /// Fresh counters: no tools run, none running.
    pub fn new() -> (r: SubagentProgress)
        ensures
            r.tool_count == 0,
            r.current_tool is None,
    {
        SubagentProgress { tool_count: 0, current_tool: None }
    }
}

/// The system prompt of a subagent, from its type, the working
/// directory and the type's prompt fragment.
pub open spec fn subagent_system_prompt_spec(
    agent_type: Seq<char>,
    workdir: Seq<char>,
    fragment: Seq<char>,
) -> Seq<char> {
    "You are a "@ + agent_type + " subagent at "@ + workdir + ".\n\n"@ + fragment
        + "\n\nComplete the task and return a clear, concise summary."@
}

/// Build a subagent's system prompt.
pub fn subagent_system_prompt(agent_type: &str, workdir: &str, fragment: &str) -> (r: String)
    ensures
        r@ == subagent_system_prompt_spec(agent_type@, workdir@, fragment@),
{
    let mut out = String::from_str("You are a ");
    out.append(agent_type);
    out.append(" subagent at ");
    out.append(workdir);
    out.append(".\n\n");
    out.append(fragment);
    out.append("\n\nComplete the task and return a clear, concise summary.");
    proof {
        assert(out@ =~= subagent_system_prompt_spec(agent_type@, workdir@, fragment@));
    }
    out
}

/// The one message a nested conversation starts from.
pub open spec fn isolated_conversation_spec(task_prompt: Seq<char>) -> Seq<MessageView> {
    seq![
        MessageView {
            role: Role::User,
            content: seq![ContentBlockView::Text { text: task_prompt }],
        },
    ]
}

/// Build the isolated conversation: exactly one user message holding
/// the task prompt, and nothing of the parent's history.
pub fn subagent_initial_conversation(task_prompt: &str) -> (r: Vec<Message>)
    ensures
        r.deep_view() == isolated_conversation_spec(task_prompt@),
{
    let mut messages: Vec<Message> = Vec::new();
    let block = ContentBlock::text(task_prompt);
    let mut content: Vec<ContentBlock> = Vec::new();
    content.push(block);
    messages.push(Message { role: Role::User, content });
    proof {
        assert(messages.deep_view() =~~= isolated_conversation_spec(task_prompt@));
    }
    messages
}

/// Everything a caller needs to drive one subagent to completion: its
/// system prompt, its filtered toolset, and a fresh nested loop.
pub struct SubagentRun {
    pub system_prompt: String,
    pub tools: Vec<ToolSpec>,
    pub nested: AgentLoop,
}

/// The error string returned when the agent type is unknown.
pub open spec fn unknown_agent_message(agent_type: Seq<char>) -> Seq<char> {
    "Error: Unknown agent type '"@ + agent_type + "'"@
}

/// Start a subagent: look the agent type up, build the isolated
/// conversation, the specialized system prompt and the filtered
/// toolset, and hand back a fresh nested loop with its own truncation
/// counter. An unknown agent type yields an error string and no loop.
pub fn spawn_subagent(
    skill_loader: &SkillLoader,
    workdir: &str,
    prompt: &str,
    agent_type: &str,
) -> (r: Result<SubagentRun, String>)
    ensures
        r is Ok <==> agent_index_from(agent_registry_spec(), agent_type@, 0)
            < agent_registry_spec().len(),
        match r {
            Ok(run) => {
                // The isolation contract: the nested conversation is
                // exactly one user message holding the task prompt.
                &&& run.nested.messages.deep_view() == isolated_conversation_spec(prompt@)
                &&& run.nested.consecutive_truncations == 0
                &&& !run.nested.terminated
                &&& run.nested.wf()
                &&& run.nested.max_truncation_retries == SUBAGENT_TRUNCATION_RETRIES
                &&& run.nested.max_output_tokens == SUBAGENT_MAX_TOKENS
                &&& run.system_prompt@ == subagent_system_prompt_spec(
                    agent_type@,
                    workdir@,
                    agent_registry_spec()[agent_index_from(
                        agent_registry_spec(),
                        agent_type@,
                        0,
                    )].config.prompt,
                )
                // The filtered toolset: the agent type's allowed base
                // tools plus the skill tool — and never the delegation
                // tool.
                &&& run.tools.deep_view() == tools_for_agent_spec(agent_type@).push(
                    ToolSpecView {
                        name: "Skill"@,
                        description: skill_tool_description_spec(skill_loader@),
                        input_schema: SKILL_SCHEMA@,
                    },
                )
                &&& forall|i: int| 0 <= i < run.tools.deep_view().len() ==> (
                #[trigger] run.tools.deep_view()[i]).name != "Task"@
            },
            Err(e) => e@ == unknown_agent_message(agent_type@),
        },
{
    let registry = get_agent_types();
    let config = match registry.get(agent_type) {
        Some(cfg) => cfg,
        None => {
            let mut e = String::from_str("Error: Unknown agent type '");
            e.append(agent_type);
            e.append("'");
            proof {
                assert(e@ =~= unknown_agent_message(agent_type@));
            }
            return Err(e);
        },
    };
    let system_prompt = subagent_system_prompt(agent_type, workdir, config.prompt.as_str());
    let tools = get_tools_for_subagent(agent_type, skill_loader);
    let messages = subagent_initial_conversation(prompt);
    let nested = AgentLoop::new(messages, SUBAGENT_MAX_TOKENS, SUBAGENT_TRUNCATION_RETRIES);
    Ok(SubagentRun { system_prompt, tools, nested })
}

/// The string a finished subagent hands back to the parent: the first
/// text block of its final message, or a fixed placeholder.
pub fn subagent_result(first_text: Option<String>) -> (r: String)
    ensures
        match first_text {
            Some(t) => r == t,
            None => r@ == "(subagent returned no text)"@,
        },
{
    match first_text {
        Some(t) => t,
        None => String::from_str("(subagent returned no text)"),
    }
}

} // verus!
