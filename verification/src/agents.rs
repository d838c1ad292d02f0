//! The agent-type registry: each type names a tool allowlist and a
//! prompt fragment for the nested loop it will run.

use vstd::prelude::*;
use vstd::string::*;

use crate::text::str_eq;

verus! {

broadcast use vstd::string::group_string_axioms;

/// One agent type: what it is for, which tools it may use (`*` for
/// all), and its prompt fragment.
#[derive(Clone, Debug)]
pub struct AgentConfig {
    pub description: String,
    pub tools: Vec<String>,
    pub prompt: String,
}

/// Mathematical image of an agent type.
#[verifier::ext_equal]
pub ghost struct AgentConfigView {
    pub description: Seq<char>,
    pub tools: Seq<Seq<char>>,
    pub prompt: Seq<char>,
}

impl View for AgentConfig {
    type V = AgentConfigView;

    open spec fn view(&self) -> AgentConfigView {
        AgentConfigView {
            description: self.description@,
            tools: self.tools.deep_view(),
            prompt: self.prompt@,
        }
    }
}

impl DeepView for AgentConfig {
    type V = AgentConfigView;

    open spec fn deep_view(&self) -> AgentConfigView {
        self.view()
    }
}

/// A named agent type.
#[derive(Clone, Debug)]
pub struct AgentEntry {
    pub name: String,
    pub config: AgentConfig,
}

/// Mathematical image of a named agent type.
#[verifier::ext_equal]
pub ghost struct AgentEntryView {
    pub name: Seq<char>,
    pub config: AgentConfigView,
}

impl View for AgentEntry {
    type V = AgentEntryView;

    open spec fn view(&self) -> AgentEntryView {
        AgentEntryView { name: self.name@, config: self.config@ }
    }
}

impl DeepView for AgentEntry {
    type V = AgentEntryView;

    open spec fn deep_view(&self) -> AgentEntryView {
        self.view()
    }
}

/// The three agent types the registry holds.
pub open spec fn agent_registry_spec() -> Seq<AgentEntryView> {
    seq![
        AgentEntryView {
            name: "explore"@,
            config: AgentConfigView {
                description: "Read-only agent for exploring code, finding files, searching"@,
                tools: seq!["bash"@, "read_file"@],
                prompt: "You are an exploration agent. Search and analyze, but never modify files. Return a concise summary."@,
            },
        },
        AgentEntryView {
            name: "code"@,
            config: AgentConfigView {
                description: "Full agent for implementing features and fixing bugs"@,
                tools: seq!["*"@],
                prompt: "You are a coding agent. Implement the requested changes efficiently."@,
            },
        },
        AgentEntryView {
            name: "plan"@,
            config: AgentConfigView {
                description: "Planning agent for designing implementation strategies"@,
                tools: seq!["bash"@, "read_file"@],
                prompt: "You are a planning agent. Analyze the codebase and output a numbered implementation plan. Do NOT make changes."@,
            },
        },
    ]
}

/// Index of the first entry carrying `name` at or after `i`, or the
/// entry count when there is none.
pub open spec fn agent_index_from(entries: Seq<AgentEntryView>, name: Seq<char>, i: int) -> int
    decreases entries.len() - i,
    when 0 <= i <= entries.len()
{
    if i >= entries.len() {
        entries.len() as int
    } else if entries[i].name == name {
        i
    } else {
        agent_index_from(entries, name, i + 1)
    }
}

/// The first index carrying a name: it is in range, and it carries the
/// name when in range.
pub proof fn lemma_agent_index_from(entries: Seq<AgentEntryView>, name: Seq<char>, from: int)
    requires
        0 <= from <= entries.len(),
    ensures
        from <= agent_index_from(entries, name, from) <= entries.len(),
        agent_index_from(entries, name, from) < entries.len() ==> entries[agent_index_from(
            entries,
            name,
            from,
        )].name == name,
    decreases entries.len() - from,
{
    if from < entries.len() && entries[from].name != name {
        lemma_agent_index_from(entries, name, from + 1);
    }
}

/// The static registry of agent types.
pub struct AgentRegistry {
    entries: Vec<AgentEntry>,
}

impl View for AgentRegistry {
    type V = Seq<AgentEntryView>;

    closed spec fn view(&self) -> Seq<AgentEntryView> {
        self.entries.deep_view()
    }
}

impl AgentRegistry {
    /// How many agent types there are.
    pub fn len(&self) -> (r: usize)
        ensures
            r == self@.len(),
    {
        self.entries.len()
    }

    /// Is an agent type of this name registered?
    pub fn contains_key(&self, name: &str) -> (r: bool)
        ensures
            r <==> agent_index_from(self@, name@, 0) < self@.len(),
    {
        let i = self.index_of(name);
        i < self.entries.len()
    }

    /// Index of the agent type carrying `name`, or the entry count.
    fn index_of(&self, name: &str) -> (r: usize)
        ensures
            r == agent_index_from(self@, name@, 0),
            r <= self@.len(),
    {
        let n = self.entries.len();
        let mut i: usize = 0;
        while i < n
            invariant
                i <= n,
                n == self@.len(),
                n == self.entries@.len(),
                agent_index_from(self@, name@, 0) == agent_index_from(self@, name@, i as int),
            decreases n - i,
        {
            if str_eq(self.entries[i].name.as_str(), name) {
                return i;
            }
            i = i + 1;
        }
        n
    }

    /// The configuration of the agent type carrying `name`, if any.
    pub fn get(&self, name: &str) -> (r: Option<&AgentConfig>)
        ensures
            r is Some <==> agent_index_from(self@, name@, 0) < self@.len(),
            match r {
                Some(cfg) => cfg@ == self@[agent_index_from(self@, name@, 0)].config,
                None => true,
            },
    {
        let i = self.index_of(name);
        if i < self.entries.len() {
            Some(&self.entries[i].config)
        } else {
            None
        }
    }
}

/// The registry: the `explore`, `code` and `plan` agent types.
pub fn get_agent_types() -> (r: AgentRegistry)
    ensures
        r@ == agent_registry_spec(),
{
    let mut entries: Vec<AgentEntry> = Vec::new();
    let mut explore_tools: Vec<String> = Vec::new();
    explore_tools.push(String::from_str("bash"));
    explore_tools.push(String::from_str("read_file"));
    entries.push(
        AgentEntry {
            name: String::from_str("explore"),
            config: AgentConfig {
                description: String::from_str(
                    "Read-only agent for exploring code, finding files, searching",
                ),
                tools: explore_tools,
                prompt: String::from_str(
                    "You are an exploration agent. Search and analyze, but never modify files. Return a concise summary.",
                ),
            },
        },
    );
    let mut code_tools: Vec<String> = Vec::new();
    code_tools.push(String::from_str("*"));
    entries.push(
        AgentEntry {
            name: String::from_str("code"),
            config: AgentConfig {
                description: String::from_str("Full agent for implementing features and fixing bugs"),
                tools: code_tools,
                prompt: String::from_str(
                    "You are a coding agent. Implement the requested changes efficiently.",
                ),
            },
        },
    );
    let mut plan_tools: Vec<String> = Vec::new();
    plan_tools.push(String::from_str("bash"));
    plan_tools.push(String::from_str("read_file"));
    entries.push(
        AgentEntry {
            name: String::from_str("plan"),
            config: AgentConfig {
                description: String::from_str(
                    "Planning agent for designing implementation strategies",
                ),
                tools: plan_tools,
                prompt: String::from_str(
                    "You are a planning agent. Analyze the codebase and output a numbered implementation plan. Do NOT make changes.",
                ),
            },
        },
    );
    let r = AgentRegistry { entries };
    proof {
        assert(r@ =~~= agent_registry_spec());
    }
    r
}

/// One description line per agent type, joined with newlines.
pub open spec fn agent_desc_lines(entries: Seq<AgentEntryView>) -> Seq<char>
    decreases entries.len(),
{
    if entries.len() == 0 {
        Seq::empty()
    } else if entries.len() == 1 {
        "- "@ + entries[0].name + ": "@ + entries[0].config.description
    } else {
        agent_desc_lines(entries.drop_last()) + "\n"@ + "- "@ + entries.last().name + ": "@
            + entries.last().config.description
    }
}

/// Render one `- name: description` line per registered agent type.
pub fn get_agent_descriptions() -> (r: String)
    ensures
        r@ == agent_desc_lines(agent_registry_spec()),
{
    let reg = get_agent_types();
    let n = reg.entries.len();
    let ghost dv = reg@;
    let mut out = String::new();
    let mut i: usize = 0;
    while i < n
        invariant
            i <= n,
            n == reg.entries@.len(),
            dv == reg@,
            dv == agent_registry_spec(),
            out@ == if i == 0 {
                Seq::<char>::empty()
            } else {
                agent_desc_lines(dv.take(i as int))
            },
        decreases n - i,
    {
        if i > 0 {
            out.append("\n");
        }
        out.append("- ");
        out.append(reg.entries[i].name.as_str());
        out.append(": ");
        out.append(reg.entries[i].config.description.as_str());
        proof {
            assert(dv.take(i + 1).drop_last() =~= dv.take(i as int));
            assert(dv.take(i + 1).last() == dv[i as int]);
            assert(out@ =~= agent_desc_lines(dv.take(i + 1)));
        }
        i = i + 1;
    }
    proof {
        assert(dv.take(n as int) =~= dv);
    }
    out
}

} // verus!
