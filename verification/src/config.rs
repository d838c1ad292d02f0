//! Configuration: the model name, the working directory, and the two
//! externally supplied bounds — output tokens and truncation retries —
//! each clamped to a sane range; plus the system prompts the loops run
//! with.

use vstd::prelude::*;
use vstd::string::*;

verus! {

/// Default output-token bound.
pub const DEFAULT_MAX_OUTPUT_TOKENS: u32 = 160000;

/// Default truncation-retry bound.
pub const DEFAULT_TRUNCATION_RETRIES: usize = 3;

/// The configured output-token bound: the requested value, or the
/// default when none was given, clamped between 1000 and 100000000.
pub open spec fn clamped_output_tokens(requested: Option<u32>) -> u32 {
    let v = match requested {
        Some(v) => v,
        None => 160000u32,
    };
    if v < 1000 {
        1000u32
    } else if v > 100000000 {
        100000000u32
    } else {
        v
    }
}

/// The configured truncation-retry bound: the requested value, or the
/// default when none was given, clamped between 1 and 10.
pub open spec fn clamped_truncation_retries(requested: Option<usize>) -> usize {
    let v = match requested {
        Some(v) => v,
        None => 3usize,
    };
    if v < 1 {
        1usize
    } else if v > 10 {
        10usize
    } else {
        v
    }
}

/// Clamp a requested output-token bound.
pub fn clamp_output_tokens(requested: Option<u32>) -> (r: u32)
    ensures
        r == clamped_output_tokens(requested),
        1000 <= r <= 100000000,
{
    let v = match requested {
        Some(v) => v,
        None => DEFAULT_MAX_OUTPUT_TOKENS,
    };
    if v < 1000 {
        1000
    } else if v > 100000000 {
        100000000
    } else {
        v
    }
}

/// Clamp a requested truncation-retry bound.
pub fn clamp_truncation_retries(requested: Option<usize>) -> (r: usize)
    ensures
        r == clamped_truncation_retries(requested),
        1 <= r <= 10,
{
    let v = match requested {
        Some(v) => v,
        None => DEFAULT_TRUNCATION_RETRIES,
    };
    if v < 1 {
        1
    } else if v > 10 {
        10
    } else {
        v
    }
}

/// The settings one loop runs with.
pub struct Config {
    /// Model identifier sent with every request.
    pub model: String,
    /// Display path of the working directory.
    pub workdir: String,
    /// Ceiling on requested output tokens, already clamped.
    pub max_output_tokens: u32,
    /// Bound on consecutive truncation retries, already clamped.
    pub max_truncation_retries: usize,
}

impl Config {
    /// Both bounds sit inside their sane ranges.
    pub open spec fn wf(&self) -> bool {
        &&& 1000 <= self.max_output_tokens <= 100000000
        &&& 1 <= self.max_truncation_retries <= 10
    }

    /// Build a configuration, clamping the two requested bounds.
    pub fn new(
        model: String,
        workdir: String,
        requested_output_tokens: Option<u32>,
        requested_truncation_retries: Option<usize>,
    ) -> (r: Config)
        ensures
            r.model == model,
            r.workdir == workdir,
            r.max_output_tokens == clamped_output_tokens(requested_output_tokens),
            r.max_truncation_retries == clamped_truncation_retries(requested_truncation_retries),
            r.wf(),
    {
        Config {
            model,
            workdir,
            max_output_tokens: clamp_output_tokens(requested_output_tokens),
            max_truncation_retries: clamp_truncation_retries(requested_truncation_retries),
        }
    }

    /// The top-level system prompt, parameterized over the rendered
    /// skill and agent descriptions so the prompt prefix stays stable
    /// across turns.
    pub fn system_prompt(&self, skill_descriptions: &str, agent_descriptions: &str) -> (r: String)
        ensures
            r@ == system_prompt_spec(self.workdir@, skill_descriptions@, agent_descriptions@),
    {
        let mut out = String::from_str("You are a coding agent at ");
        out.append(self.workdir.as_str());
        out.append(
            ".\n\nLoop: plan -> act with tools -> report.\n\n**Skills available** (invoke with Skill tool when task matches):\n",
        );
        out.append(skill_descriptions);
        out.append("\n\n**Subagents available** (invoke with Task tool for focused subtasks):\n");
        out.append(agent_descriptions);
        out.append(
            "\n\nRules:\n- Use Skill tool IMMEDIATELY when a task matches a skill description\n- Use Task tool for subtasks needing focused exploration or implementation\n- Use TodoWrite to track multi-step work\n- Prefer tools over prose. Act, don't just explain.\n- After finishing, summarize what changed.",
        );
        proof {
            assert(out@ =~= system_prompt_spec(
                self.workdir@,
                skill_descriptions@,
                agent_descriptions@,
            ));
        }
        out
    }
}

/// The top-level system prompt: the working directory, the loop
/// instructions, the skill and subagent descriptions, and the rules.
pub open spec fn system_prompt_spec(
    workdir: Seq<char>,
    skill_descriptions: Seq<char>,
    agent_descriptions: Seq<char>,
) -> Seq<char> {
    "You are a coding agent at "@ + workdir
        + ".\n\nLoop: plan -> act with tools -> report.\n\n**Skills available** (invoke with Skill tool when task matches):\n"@
        + skill_descriptions
        + "\n\n**Subagents available** (invoke with Task tool for focused subtasks):\n"@
        + agent_descriptions
        + "\n\nRules:\n- Use Skill tool IMMEDIATELY when a task matches a skill description\n- Use Task tool for subtasks needing focused exploration or implementation\n- Use TodoWrite to track multi-step work\n- Prefer tools over prose. Act, don't just explain.\n- After finishing, summarize what changed."@
}

/// The single-tool system prompt: how to work through shell commands
/// at `cwd`, and how to hand a self-contained task to `agent_cmd` for
/// isolated exploration.
pub open spec fn cli_system_prompt_spec(cwd: Seq<char>, agent_cmd: Seq<char>) -> Seq<char> {
    "You are a CLI agent at "@ + cwd
        + ". Solve problems using bash commands.\n\nRules:\n- Prefer tools over prose. Act first, explain briefly after.\n- Read files: cat, grep, find, rg, ls, head, tail\n- Write files: echo '...' > file, sed -i, or cat << 'EOF' > file\n- Subagent: For complex subtasks, spawn a subagent to keep context clean:\n  "@
        + agent_cmd
        + " \"explore src/ and summarize the architecture\"\n\nWhen to use subagent:\n- Task requires reading many files (isolate the exploration)\n- Task is independent and self-contained\n- You want to avoid polluting current conversation with intermediate details\n\nThe subagent runs in isolation and returns only its final summary."@
}

/// Build the single-tool system prompt for a shell-only loop: `cwd` is
/// the working directory, `agent_cmd` the command that spawns an
/// isolated subagent.
pub fn get_system_prompt(cwd: &str, agent_cmd: &str) -> (r: String)
    ensures
        r@ == cli_system_prompt_spec(cwd@, agent_cmd@),
{
    let mut out = String::from_str("You are a CLI agent at ");
    out.append(cwd);
    out.append(
        ". Solve problems using bash commands.\n\nRules:\n- Prefer tools over prose. Act first, explain briefly after.\n- Read files: cat, grep, find, rg, ls, head, tail\n- Write files: echo '...' > file, sed -i, or cat << 'EOF' > file\n- Subagent: For complex subtasks, spawn a subagent to keep context clean:\n  ",
    );
    out.append(agent_cmd);
    out.append(
        " \"explore src/ and summarize the architecture\"\n\nWhen to use subagent:\n- Task requires reading many files (isolate the exploration)\n- Task is independent and self-contained\n- You want to avoid polluting current conversation with intermediate details\n\nThe subagent runs in isolation and returns only its final summary.",
    );
    proof {
        assert(out@ =~= cli_system_prompt_spec(cwd@, agent_cmd@));
    }
    out
}

} // verus!
