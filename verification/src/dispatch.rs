//! The tool dispatcher: route a tool name and its validated input to an
//! action, or to an immediate reply for an unknown tool or a missing
//! parameter. Also the output shaping every tool result goes through:
//! capping at a fixed byte budget on a character boundary, and the
//! formatting of the shell, read, write and edit outcomes.

use vstd::prelude::*;
use vstd::string::*;

use crate::protocol::byte_len;
use crate::text::{
    dec_rep, has_sub, is_match_at, join_sep, join_strings, lines_of, replace_first,
    safe_truncate, split_newlines, str_eq, trim_spec, trim_str, u64_to_string,
};
use crate::todo::TodoItem;

verus! {

broadcast use vstd::string::group_string_axioms;

/// Largest tool output handed back to the model, in bytes.
pub const OUTPUT_CAP: usize = 50000;

/// The arguments a tool call may carry, already pulled out of the
/// call's structured input: absent fields are `None`.
pub struct ToolInput {
    pub command: Option<String>,
    pub path: Option<String>,
    pub limit: Option<i64>,
    pub content: Option<String>,
    pub old_text: Option<String>,
    pub new_text: Option<String>,
    pub items: Option<Vec<TodoItem>>,
    pub skill: Option<String>,
    pub description: Option<String>,
    pub prompt: Option<String>,
    pub agent_type: Option<String>,
    pub query: Option<String>,
    pub max_results: Option<i64>,
}

impl ToolInput {
    /// An input with every field absent.
    pub fn empty() -> (r: ToolInput)
        ensures
            r.command is None,
            r.path is None,
            r.limit is None,
            r.content is None,
            r.old_text is None,
            r.new_text is None,
            r.items is None,
            r.skill is None,
            r.description is None,
            r.prompt is None,
            r.agent_type is None,
            r.query is None,
            r.max_results is None,
    {
        ToolInput {
            command: None,
            path: None,
            limit: None,
            content: None,
            old_text: None,
            new_text: None,
            items: None,
            skill: None,
            description: None,
            prompt: None,
            agent_type: None,
            query: None,
            max_results: None,
        }
    }
}

/// What the dispatcher decides: an action for the caller to carry out,
/// or an immediate reply.
pub enum ToolAction {
    /// Run a shell command.
    RunBash { command: String },
    /// Read a file, optionally at most this many lines.
    ReadFile { path: String, limit: Option<i64> },
    /// Write content to a file.
    WriteFile { path: String, content: String },
    /// Replace the first occurrence of `old_text` in a file.
    EditFile { path: String, old_text: String, new_text: String },
    /// Search the web.
    WebSearch { query: String, max_results: i64 },
    /// Replace the todo list.
    UpdateTodo { items: Vec<TodoItem> },
    /// Resolve a skill into the conversation.
    LoadSkill { skill: String },
    /// Spawn a subagent.
    SpawnTask { description: String, prompt: String, agent_type: String },
    /// No action: this string is the tool result.
    Reply { message: String },
}

/// The reply for a required parameter that is absent.
pub open spec fn missing_param_message(field: Seq<char>) -> Seq<char> {
    "Error: Missing '"@ + field + "' parameter"@
}

/// The reply for a tool name nothing routes to.
pub open spec fn unknown_tool_message(name: Seq<char>) -> Seq<char> {
    "Unknown tool: "@ + name
}

/// Build a missing-parameter reply.
fn missing_param(field: &str) -> (r: ToolAction)
    ensures
        r matches ToolAction::Reply { message } && message@ == missing_param_message(field@),
{
    let mut m = String::from_str("Error: Missing '");
    m.append(field);
    m.append("' parameter");
    proof {
        assert(m@ =~= missing_param_message(field@));
    }
    ToolAction::Reply { message: m }
}

/// Lengths and leading characters of the tool names, enough to tell
/// any two of them apart.
proof fn lemma_tool_names_distinct()
    ensures
        "bash"@.len() == 4,
        "read_file"@.len() == 9,
        "write_file"@.len() == 10,
        "edit_file"@.len() == 9,
        "web_search"@.len() == 10,
        "TodoWrite"@.len() == 9,
        "Skill"@.len() == 5,
        "Task"@.len() == 4,
        "bash"@[0] == 'b',
        "Task"@[0] == 'T',
        "read_file"@[0] == 'r',
        "edit_file"@[0] == 'e',
        "TodoWrite"@[0] == 'T',
        "write_file"@[1] == 'r',
        "web_search"@[1] == 'e',
{
    reveal_strlit("bash");
    reveal_strlit("read_file");
    reveal_strlit("write_file");
    reveal_strlit("edit_file");
    reveal_strlit("web_search");
    reveal_strlit("TodoWrite");
    reveal_strlit("Skill");
    reveal_strlit("Task");
}

/// Route one tool call. Every known tool checks its required
/// parameters in a fixed order and yields its action; an absent
/// required parameter or an unknown tool name yields a reply instead,
/// never a failure.
pub fn dispatch_tool(name: &str, input: ToolInput) -> (r: ToolAction)
    ensures
        name@ == "bash"@ ==> match input.command {
            Some(command) => r matches ToolAction::RunBash { command: c } && c == command,
            None => r matches ToolAction::Reply { message } && message@ == missing_param_message(
                "command"@,
            ),
        },
        name@ == "read_file"@ ==> match input.path {
            Some(path) => r matches ToolAction::ReadFile { path: p, limit } && p == path && limit
                == input.limit,
            None => r matches ToolAction::Reply { message } && message@ == missing_param_message(
                "path"@,
            ),
        },
        name@ == "write_file"@ ==> match (input.path, input.content) {
            (Some(path), Some(content)) => r matches ToolAction::WriteFile { path: p, content: c }
                && p == path && c == content,
            (None, _) => r matches ToolAction::Reply { message } && message@
                == missing_param_message("path"@),
            (Some(_), None) => r matches ToolAction::Reply { message } && message@
                == missing_param_message("content"@),
        },
        name@ == "edit_file"@ ==> match (input.path, input.old_text, input.new_text) {
            (Some(path), Some(old_text), Some(new_text)) => r matches ToolAction::EditFile {
                path: p,
                old_text: o,
                new_text: n,
            } && p == path && o == old_text && n == new_text,
            (None, _, _) => r matches ToolAction::Reply { message } && message@
                == missing_param_message("path"@),
            (Some(_), None, _) => r matches ToolAction::Reply { message } && message@
                == missing_param_message("old_text"@),
            (Some(_), Some(_), None) => r matches ToolAction::Reply { message } && message@
                == missing_param_message("new_text"@),
        },
        name@ == "web_search"@ ==> match input.query {
            Some(query) => r matches ToolAction::WebSearch { query: q, max_results } && q == query
                && max_results == match input.max_results {
                Some(m) => m,
                None => 5,
            },
            None => r matches ToolAction::Reply { message } && message@ == missing_param_message(
                "query"@,
            ),
        },
        name@ == "TodoWrite"@ ==> match input.items {
            Some(items) => r matches ToolAction::UpdateTodo { items: i } && i == items,
            None => r matches ToolAction::Reply { message } && message@ == missing_param_message(
                "items"@,
            ),
        },
        name@ == "Skill"@ ==> (r matches ToolAction::LoadSkill { skill } && skill@
            == match input.skill {
            Some(sk) => sk@,
            None => Seq::<char>::empty(),
        }),
        name@ == "Task"@ ==> (r matches ToolAction::SpawnTask { description, prompt, agent_type }
            && description@ == match input.description {
            Some(d) => d@,
            None => "subtask"@,
        } && prompt@ == match input.prompt {
            Some(p) => p@,
            None => Seq::<char>::empty(),
        } && agent_type@ == match input.agent_type {
            Some(a) => a@,
            None => "explore"@,
        }),
        name@ != "bash"@ && name@ != "read_file"@ && name@ != "write_file"@ && name@
            != "edit_file"@ && name@ != "web_search"@ && name@ != "TodoWrite"@ && name@
            != "Skill"@ && name@ != "Task"@ ==> (r matches ToolAction::Reply { message }
            && message@ == unknown_tool_message(name@)),
{
    proof {
        lemma_tool_names_distinct();
    }
    if str_eq(name, "bash") {
        match input.command {
            Some(command) => ToolAction::RunBash { command },
            None => missing_param("command"),
        }
    } else if str_eq(name, "read_file") {
        match input.path {
            Some(path) => ToolAction::ReadFile { path, limit: input.limit },
            None => missing_param("path"),
        }
    } else if str_eq(name, "write_file") {
        match input.path {
            Some(path) => match input.content {
                Some(content) => ToolAction::WriteFile { path, content },
                None => missing_param("content"),
            },
            None => missing_param("path"),
        }
    } else if str_eq(name, "edit_file") {
        match input.path {
            Some(path) => match input.old_text {
                Some(old_text) => match input.new_text {
                    Some(new_text) => ToolAction::EditFile { path, old_text, new_text },
                    None => missing_param("new_text"),
                },
                None => missing_param("old_text"),
            },
            None => missing_param("path"),
        }
    } else if str_eq(name, "web_search") {
        match input.query {
            Some(query) => {
                let max_results = match input.max_results {
                    Some(m) => m,
                    None => 5,
                };
                ToolAction::WebSearch { query, max_results }
            },
            None => missing_param("query"),
        }
    } else if str_eq(name, "TodoWrite") {
        match input.items {
            Some(items) => ToolAction::UpdateTodo { items },
            None => missing_param("items"),
        }
    } else if str_eq(name, "Skill") {
        let skill = match input.skill {
            Some(sk) => sk,
            None => String::new(),
        };
        ToolAction::LoadSkill { skill }
    } else if str_eq(name, "Task") {
        let description = match input.description {
            Some(d) => d,
            None => String::from_str("subtask"),
        };
        let prompt = match input.prompt {
            Some(p) => p,
            None => String::new(),
        };
        let agent_type = match input.agent_type {
            Some(a) => a,
            None => String::from_str("explore"),
        };
        ToolAction::SpawnTask { description, prompt, agent_type }
    } else {
        let mut m = String::from_str("Unknown tool: ");
        m.append(name);
        proof {
            assert(m@ =~= unknown_tool_message(name@));
        }
        ToolAction::Reply { message: m }
    }
}

/// The prefix kept by a cut at the output budget: it is a prefix of
/// whole characters, and its encoding fills the budget up to the last
/// character boundary at or below it.
pub open spec fn is_capped_prefix(s: Seq<char>, k: int) -> bool {
    &&& 0 <= k <= s.len()
    &&& byte_len(s.take(k)) == crate::text::truncated_len(vstd::utf8::encode_utf8(s), 50000)
}

/// Cap a tool output at the output budget, never splitting a character,
/// marking the cut.
pub fn cap_tool_output(s: &str) -> (r: String)
    ensures
        byte_len(s@) <= 50000 ==> r@ == s@,
        byte_len(s@) > 50000 ==> exists|k: int|
            #[trigger] is_capped_prefix(s@, k) && r@ == s@.take(k) + "...(truncated)"@,
{
    let blen = s.as_bytes().len();
    if blen <= OUTPUT_CAP {
        return String::from_str(s);
    }
    let prefix = safe_truncate(s, OUTPUT_CAP);
    let mut out = String::from_str(prefix);
    out.append("...(truncated)");
    proof {
        let k = prefix@.len() as int;
        assert(byte_len(s@.take(k)) == crate::text::truncated_len(
            vstd::utf8::encode_utf8(s@),
            50000,
        )) by {
            crate::text::lemma_truncated_len_bounds(s.spec_bytes(), 50000);
            assert(prefix@ == s@.take(k));
            assert(vstd::utf8::encode_utf8(prefix@) == prefix.spec_bytes());
        }
        assert(is_capped_prefix(s@, k));
        assert(out@ =~= s@.take(k) + "...(truncated)"@);
    }
    out
}

/// The shell outcome as a tool result: combined output trimmed, a
/// placeholder when nothing was printed, capped at the output budget.
pub fn format_bash_output(combined: &str) -> (r: String)
    ensures
        trim_spec(combined@).len() == 0 ==> r@ == "(no output)"@,
        trim_spec(combined@).len() > 0 && byte_len(trim_spec(combined@)) <= 50000 ==> r@
            == trim_spec(combined@),
        trim_spec(combined@).len() > 0 && byte_len(trim_spec(combined@)) > 50000 ==> exists|k: int|
            #[trigger] is_capped_prefix(trim_spec(combined@), k) && r@ == trim_spec(
                combined@,
            ).take(k) + "...(truncated)"@,
{
    let trimmed = trim_str(combined);
    if trimmed.unicode_len() == 0 {
        return String::from_str("(no output)");
    }
    cap_tool_output(trimmed)
}

/// The dangerous command fragments the shell tool refuses.
pub open spec fn is_dangerous_command(command: Seq<char>) -> bool {
    ||| has_sub(command, "rm -rf /"@)
    ||| has_sub(command, "sudo"@)
    ||| has_sub(command, "shutdown"@)
    ||| has_sub(command, "reboot"@)
    ||| has_sub(command, "> /dev/"@)
}

/// Refuse a dangerous shell command before it runs: the blocked reply,
/// or nothing when the command may proceed.
pub fn bash_precheck(command: &str) -> (r: Option<String>)
    ensures
        r is Some <==> is_dangerous_command(command@),
        match r {
            Some(m) => m@ == "Error: Dangerous command blocked"@,
            None => true,
        },
{
    let dangerous = crate::text::contains_sub(command, "rm -rf /") || crate::text::contains_sub(
        command,
        "sudo",
    ) || crate::text::contains_sub(command, "shutdown") || crate::text::contains_sub(
        command,
        "reboot",
    ) || crate::text::contains_sub(command, "> /dev/");
    if dangerous {
        Some(String::from_str("Error: Dangerous command blocked"))
    } else {
        None
    }
}

/// The reply for a successful write.
pub fn write_result_message(bytes_written: usize, path: &str) -> (r: String)
    ensures
        r@ == "Wrote "@ + dec_rep(bytes_written as nat) + " bytes to "@ + path@,
{
    let mut m = String::from_str("Wrote ");
    let n = u64_to_string(bytes_written as u64);
    m.append(n.as_str());
    m.append(" bytes to ");
    m.append(path);
    proof {
        assert(m@ =~= "Wrote "@ + dec_rep(bytes_written as nat) + " bytes to "@ + path@);
    }
    m
}

/// Apply an edit to file content: replace the first occurrence of
/// `old_text` with `new_text`. The first result is the new content to
/// store (nothing when the text was not found), the second is the tool
/// reply.
pub fn run_edit_content(content: &str, old_text: &str, new_text: &str, path: &str) -> (r: (
    Option<String>,
    String,
))
    ensures
        r.0 is Some <==> has_sub(content@, old_text@),
        match r.0 {
            Some(out) => {
                &&& r.1@ == "Edited "@ + path@
                &&& exists|i: int|
                    {
                        &&& #[trigger] is_match_at(content@, old_text@, i)
                        &&& (forall|j: int| 0 <= j < i ==> !is_match_at(content@, old_text@, j))
                        &&& out@ == content@.take(i) + new_text@ + content@.skip(
                            i + old_text@.len(),
                        )
                    }
            },
            None => r.1@ == "Error: Text not found in "@ + path@,
        },
{
    match replace_first(content, old_text, new_text) {
        Some(out) => {
            let mut m = String::from_str("Edited ");
            m.append(path);
            proof {
                assert(m@ =~= "Edited "@ + path@);
            }
            (Some(out), m)
        },
        None => {
            let mut m = String::from_str("Error: Text not found in ");
            m.append(path);
            proof {
                assert(m@ =~= "Error: Text not found in "@ + path@);
            }
            (None, m)
        },
    }
}

} // verus!

verus! {

/// A line without its trailing carriage return, if it has one.
pub open spec fn strip_cr(l: Seq<char>) -> Seq<char> {
    if l.len() > 0 && l.last() == '\r' {
        l.drop_last()
    } else {
        l
    }
}

/// Every line without its trailing carriage return.
pub open spec fn strip_cr_all(ls: Seq<Seq<char>>) -> Seq<Seq<char>>
    decreases ls.len(),
{
    if ls.len() == 0 {
        Seq::empty()
    } else {
        strip_cr_all(ls.drop_last()).push(strip_cr(ls.last()))
    }
}

/// The lines of a text as the line-based reader counts them: a
/// trailing newline ends the last line rather than opening an empty
/// one, and a carriage return before a newline is not part of the line.
pub open spec fn rust_lines_spec(s: Seq<char>) -> Seq<Seq<char>> {
    let ls = lines_of(s);
    let cut = if s.len() > 0 && s[s.len() - 1] == '\n' {
        ls.drop_last()
    } else {
        ls
    };
    strip_cr_all(cut)
}

/// Split a text into lines, as the line-based reader counts them.
fn rust_lines(s: &str) -> (r: Vec<String>)
    ensures
        r.deep_view() == rust_lines_spec(s@),
{
    let mut lines = split_newlines(s);
    let slen = s.unicode_len();
    if slen > 0 && s.get_char(slen - 1) == '\n' {
        proof {
            assert(lines@.len() > 0) by {
                if lines@.len() == 0 {
                    assert(lines.deep_view().len() == 0);
                }
            }
        }
        lines.pop();
        proof {
            assert(lines.deep_view() =~= lines_of(s@).drop_last());
        }
    }
    let ghost cut = lines.deep_view();
    let n = lines.len();
    let mut out: Vec<String> = Vec::new();
    let mut i: usize = 0;
    while i < n
        invariant
            i <= n,
            n == lines@.len(),
            cut == lines.deep_view(),
            out.deep_view() =~= strip_cr_all(cut.take(i as int)),
        decreases n - i,
    {
        let line = lines[i].as_str();
        proof {
            assert(line@ == cut[i as int]);
        }
        let llen = line.unicode_len();
        let ghost before = out.deep_view();
        if llen > 0 && line.get_char(llen - 1) == '\r' {
            let stripped = String::from_str(line.substring_char(0, llen - 1));
            proof {
                assert(stripped@ =~= cut[i as int].drop_last());
            }
            out.push(stripped);
        } else {
            out.push(String::from_str(line));
        }
        proof {
            assert(cut.take(i + 1).drop_last() =~= cut.take(i as int));
            assert(cut.take(i + 1).last() == cut[i as int]);
            assert(out.deep_view() =~= before.push(strip_cr(cut[i as int])));
            assert(out.deep_view() =~= strip_cr_all(cut.take(i + 1)));
        }
        i = i + 1;
    }
    proof {
        assert(cut.take(n as int) =~= cut);
        assert(out.deep_view() =~= rust_lines_spec(s@));
    }
    out
}

/// What the file reader shows before capping: the whole content, or —
/// when a positive line limit is below the line count — the first
/// `limit` lines joined, with a note of how many more there are.
pub open spec fn read_limited_spec(content: Seq<char>, limit: Option<i64>) -> Seq<char> {
    let ls = rust_lines_spec(content);
    match limit {
        Some(l) => if l > 0 && (l as usize) < ls.len() {
            join_sep(ls.take(l as usize as int), "\n"@) + "\n... ("@ + dec_rep(
                (ls.len() - (l as usize)) as nat,
            ) + " more lines)"@
        } else {
            content
        },
        None => content,
    }
}

/// The file reader's tool result: the content, limited to the first
/// `limit` lines when a positive limit is below the line count, and
/// capped at the output budget.
pub fn format_read_output(content: &str, limit: Option<i64>) -> (r: String)
    ensures
        byte_len(read_limited_spec(content@, limit)) <= 50000 ==> r@ == read_limited_spec(
            content@,
            limit,
        ),
        byte_len(read_limited_spec(content@, limit)) > 50000 ==> exists|k: int|
            #[trigger] is_capped_prefix(read_limited_spec(content@, limit), k) && r@
                == read_limited_spec(content@, limit).take(k) + "...(truncated)"@,
{
    let lines = rust_lines(content);
    let total = lines.len();
    let mut use_limit: bool = false;
    let mut lu: usize = 0;
    match limit {
        Some(l) => {
            if l > 0 {
                lu = l as usize;
                if lu < total {
                    use_limit = true;
                }
            }
        },
        None => {},
    }
    if use_limit {
        let kept = crate::text::subvec_strings(&lines, 0, lu);
        proof {
            assert(kept.deep_view() =~= rust_lines_spec(content@).take(lu as int));
        }
        let mut out = join_strings(&kept, "\n");
        out.append("\n... (");
        let more = u64_to_string((total - lu) as u64);
        out.append(more.as_str());
        out.append(" more lines)");
        proof {
            assert(out@ =~= read_limited_spec(content@, limit));
        }
        cap_tool_output(out.as_str())
    } else {
        proof {
            assert(read_limited_spec(content@, limit) == content@);
        }
        cap_tool_output(content)
    }
}

} // verus!
