//! Skills: on-disk knowledge units with a manifest (front matter with a
//! name and a description) and a free-text body. The loader keeps one
//! skill per name; descriptions are cheap to render for every skill,
//! while a skill's full content is resolved only on demand.

use vstd::prelude::*;
use vstd::string::*;

use crate::text::{
    all_blank, find_char, find_char_from, has_sub, is_blank, is_match_at, join_sep, join_strings,
    lines_of, split_newlines, starts_with_sub, str_eq, strip_quotes, strip_quotes_spec,
    subvec_strings, trim_spec, trim_str,
};

verus! {

broadcast use vstd::string::group_string_axioms;

/// What a valid manifest parses to.
#[derive(Clone, Debug)]
pub struct ParsedSkill {
    pub name: String,
    pub description: String,
    pub body: String,
}

/// Mathematical image of a parsed manifest.
#[verifier::ext_equal]
pub ghost struct ParsedSkillView {
    pub name: Seq<char>,
    pub description: Seq<char>,
    pub body: Seq<char>,
}

impl View for ParsedSkill {
    type V = ParsedSkillView;

    open spec fn view(&self) -> ParsedSkillView {
        ParsedSkillView {
            name: self.name@,
            description: self.description@,
            body: self.body@,
        }
    }
}

/// A front-matter fence: three dashes followed by nothing but white
/// space.
pub open spec fn is_marker_line(l: Seq<char>) -> bool {
    l.len() >= 3 && l.subrange(0, 3) == "---"@ && all_blank(l.skip(3))
}

/// Index of the first fence line at or after `i`, or the line count
/// when there is none.
pub open spec fn first_marker_from(ls: Seq<Seq<char>>, i: int) -> int
    decreases ls.len() - i,
    when 0 <= i <= ls.len()
{
    if i >= ls.len() {
        ls.len() as int
    } else if is_marker_line(ls[i]) {
        i
    } else {
        first_marker_from(ls, i + 1)
    }
}

/// The key and value of one front-matter line, split at the first
/// colon: the key trimmed, the value trimmed and stripped of quotes.
/// A line without a colon has none.
pub open spec fn kv_of(l: Seq<char>) -> Option<(Seq<char>, Seq<char>)> {
    let c = find_char_from(l, ':', 0);
    if 0 <= c < l.len() {
        Some(
            (
                trim_spec(l.subrange(0, c)),
                strip_quotes_spec(trim_spec(l.subrange(c + 1, l.len() as int))),
            ),
        )
    } else {
        None
    }
}

/// The value of the last front-matter line carrying `key`, if any.
pub open spec fn last_value_for(ls: Seq<Seq<char>>, key: Seq<char>) -> Option<Seq<char>>
    decreases ls.len(),
{
    if ls.len() == 0 {
        None
    } else {
        match kv_of(ls.last()) {
            Some(kv) => if kv.0 == key {
                Some(kv.1)
            } else {
                last_value_for(ls.drop_last(), key)
            },
            None => last_value_for(ls.drop_last(), key),
        }
    }
}

/// What parsing a manifest yields: the text must open with a fence
/// line, a later fence line must close the front matter and be followed
/// by a newline, and the front matter must carry both a name and a
/// description. The body is everything after the closing fence, with
/// surrounding white space trimmed.
pub open spec fn parse_skill_spec(content: Seq<char>) -> Option<ParsedSkillView> {
    let ls = lines_of(content);
    if !is_marker_line(ls[0]) {
        None
    } else {
        let c = first_marker_from(ls, 1);
        if c >= ls.len() - 1 {
            None
        } else {
            let fm = ls.subrange(1, c);
            let name = last_value_for(fm, "name"@);
            let desc = last_value_for(fm, "description"@);
            if name is Some && desc is Some {
                Some(
                    ParsedSkillView {
                        name: name.unwrap(),
                        description: desc.unwrap(),
                        body: trim_spec(
                            join_sep(ls.subrange(c + 1, ls.len() as int), "\n"@),
                        ),
                    },
                )
            } else {
                None
            }
        }
    }
}

/// Is this line a front-matter fence?
fn is_marker_line_exec(l: &str) -> (r: bool)
    ensures
        r == is_marker_line(l@),
{
    proof {
        reveal_strlit("---");
    }
    let len = l.unicode_len();
    if len < 3 {
        return false;
    }
    if !starts_with_sub(l, "---") {
        proof {
            if l@.subrange(0, 3) == "---"@ {
                assert(is_match_at(l@, "---"@, 0));
            }
        }
        return false;
    }
    let rest = l.substring_char(3, len);
    proof {
        assert(rest@ =~= l@.skip(3));
    }
    is_blank(rest)
}

/// Parse a manifest: front matter between fence lines, then the body.
pub fn parse_skill_md(content: &str) -> (r: Option<ParsedSkill>)
    ensures
        match r {
            Some(p) => parse_skill_spec(content@) == Some(p@),
            None => parse_skill_spec(content@) is None,
        },
{
    let lines = split_newlines(content);
    let ghost ls = lines.deep_view();
    let n = lines.len();
    if !is_marker_line_exec(lines[0].as_str()) {
        return None;
    }
    let mut c: usize = 1;
    while c < n && !is_marker_line_exec(lines[c].as_str())
        invariant
            1 <= c <= n,
            n == lines@.len(),
            ls == lines.deep_view(),
            first_marker_from(ls, 1) == first_marker_from(ls, c as int),
        decreases n - c,
    {
        c = c + 1;
    }
    proof {
        assert(first_marker_from(ls, 1) == c as int);
    }
    if c >= n - 1 {
        return None;
    }
    let ghost fm = ls.subrange(1, c as int);
    let mut name: Option<String> = None;
    let mut desc: Option<String> = None;
    let mut i: usize = 1;
    while i < c
        invariant
            1 <= i <= c,
            c < n,
            n == lines@.len(),
            ls == lines.deep_view(),
            fm == ls.subrange(1, c as int),
            name.deep_view() == last_value_for(ls.subrange(1, i as int), "name"@),
            desc.deep_view() == last_value_for(ls.subrange(1, i as int), "description"@),
        decreases c - i,
    {
        let line = lines[i].as_str();
        proof {
            assert(ls.subrange(1, i + 1).drop_last() =~= ls.subrange(1, i as int));
            assert(ls.subrange(1, i + 1).last() == ls[i as int]);
            assert(line@ == ls[i as int]);
        }
        let llen = line.unicode_len();
        let colon = find_char(line, ':', 0);
        if colon < llen {
            let key = trim_str(line.substring_char(0, colon));
            let value = strip_quotes(trim_str(line.substring_char(colon + 1, llen)));
            proof {
                assert(kv_of(ls[i as int]) == Some((key@, value@)));
                // The two key literals differ, so a matching line can
                // only settle the field it names.
                reveal_strlit("name");
                reveal_strlit("description");
                assert("name"@.len() == 4 && "description"@.len() == 11);
                assert("name"@ != "description"@);
            }
            if str_eq(key, "name") {
                name = Some(String::from_str(value));
            } else if str_eq(key, "description") {
                desc = Some(String::from_str(value));
            }
        } else {
            proof {
                assert(kv_of(ls[i as int]) is None);
            }
        }
        i = i + 1;
    }
    proof {
        assert(ls.subrange(1, c as int) =~= fm);
    }
    if name.is_none() || desc.is_none() {
        return None;
    }
    let body_lines = subvec_strings(&lines, c + 1, n);
    let body_joined = join_strings(&body_lines, "\n");
    let body = String::from_str(trim_str(body_joined.as_str()));
    Some(ParsedSkill { name: name.unwrap(), description: desc.unwrap(), body })
}

/// A listing of one resource folder of a skill.
#[derive(Clone, Debug)]
pub struct ResourceGroup {
    /// The folder's display label.
    pub label: String,
    /// The files the folder holds.
    pub files: Vec<String>,
}

/// Mathematical image of a resource listing.
#[verifier::ext_equal]
pub ghost struct ResourceGroupView {
    pub label: Seq<char>,
    pub files: Seq<Seq<char>>,
}

impl View for ResourceGroup {
    type V = ResourceGroupView;

    open spec fn view(&self) -> ResourceGroupView {
        ResourceGroupView { label: self.label@, files: self.files.deep_view() }
    }
}

impl DeepView for ResourceGroup {
    type V = ResourceGroupView;

    open spec fn deep_view(&self) -> ResourceGroupView {
        self.view()
    }
}

/// One loaded skill.
#[derive(Clone, Debug)]
pub struct Skill {
    pub name: String,
    pub description: String,
    pub body: String,
    /// Display path of the folder the skill was loaded from.
    pub dir: String,
    /// Listings of the skill's resource folders.
    pub resources: Vec<ResourceGroup>,
}

/// Mathematical image of a skill.
#[verifier::ext_equal]
pub ghost struct SkillView {
    pub name: Seq<char>,
    pub description: Seq<char>,
    pub body: Seq<char>,
    pub dir: Seq<char>,
    pub resources: Seq<ResourceGroupView>,
}

impl View for Skill {
    type V = SkillView;

    open spec fn view(&self) -> SkillView {
        SkillView {
            name: self.name@,
            description: self.description@,
            body: self.body@,
            dir: self.dir@,
            resources: self.resources.deep_view(),
        }
    }
}

impl DeepView for Skill {
    type V = SkillView;

    open spec fn deep_view(&self) -> SkillView {
        self.view()
    }
}

/// Index of the first skill named `name` at or after `i`, or the skill
/// count when there is none.
pub open spec fn skill_index_from(skills: Seq<SkillView>, name: Seq<char>, i: int) -> int
    decreases skills.len() - i,
    when 0 <= i <= skills.len()
{
    if i >= skills.len() {
        skills.len() as int
    } else if skills[i].name == name {
        i
    } else {
        skill_index_from(skills, name, i + 1)
    }
}

/// One description line: `- name: description`.
pub open spec fn desc_line(sk: SkillView) -> Seq<char> {
    "- "@ + sk.name + ": "@ + sk.description
}

/// All description lines joined with newlines.
pub open spec fn desc_lines(skills: Seq<SkillView>) -> Seq<char>
    decreases skills.len(),
{
    if skills.len() == 0 {
        Seq::empty()
    } else if skills.len() == 1 {
        desc_line(skills[0])
    } else {
        desc_lines(skills.drop_last()) + "\n"@ + desc_line(skills.last())
    }
}

/// What `get_descriptions` renders: a placeholder when no skill is
/// loaded, else one line per skill.
pub open spec fn descriptions_spec(skills: Seq<SkillView>) -> Seq<char> {
    if skills.len() == 0 {
        "(no skills available)"@
    } else {
        desc_lines(skills)
    }
}

/// The listing line for one resource folder.
pub open spec fn resource_line(g: ResourceGroupView) -> Seq<char> {
    "- "@ + g.label + ": "@ + join_sep(g.files, ", "@) + "\n"@
}

/// Listing lines for every non-empty resource folder.
pub open spec fn resource_lines(gs: Seq<ResourceGroupView>) -> Seq<char>
    decreases gs.len(),
{
    if gs.len() == 0 {
        Seq::empty()
    } else {
        resource_lines(gs.drop_last()) + if gs.last().files.len() > 0 {
            resource_line(gs.last())
        } else {
            Seq::<char>::empty()
        }
    }
}

/// Does any resource folder hold a file?
pub open spec fn has_resources(gs: Seq<ResourceGroupView>) -> bool {
    exists|i: int| 0 <= i < gs.len() && #[trigger] gs[i].files.len() > 0
}

/// The full content `resolve` returns for a skill: a heading, the body,
/// and — when any resource folder holds files — a listing of them.
pub open spec fn content_spec(sk: SkillView) -> Seq<char> {
    let base = "# Skill: "@ + sk.name + "\n\n"@ + sk.body;
    if has_resources(sk.resources) {
        base + "\n\n**Available resources in "@ + sk.dir + ":**\n"@ + resource_lines(sk.resources)
    } else {
        base
    }
}

/// The first index carrying a name: it is in range, it carries the
/// name when in range, and nothing before it does.
pub proof fn lemma_skill_index_from(skills: Seq<SkillView>, name: Seq<char>, from: int)
    requires
        0 <= from <= skills.len(),
    ensures
        from <= skill_index_from(skills, name, from) <= skills.len(),
        skill_index_from(skills, name, from) < skills.len() ==> skills[skill_index_from(
            skills,
            name,
            from,
        )].name == name,
        forall|j: int| from <= j < skill_index_from(skills, name, from) ==> skills[j].name != name,
    decreases skills.len() - from,
{
    if from < skills.len() && skills[from].name != name {
        lemma_skill_index_from(skills, name, from + 1);
    }
}

/// Keeps the loaded skills, one per name.
pub struct SkillLoader {
    skills: Vec<Skill>,
}

impl View for SkillLoader {
    type V = Seq<SkillView>;

    closed spec fn view(&self) -> Seq<SkillView> {
        self.skills.deep_view()
    }
}

/// Where an inserted skill lands: over the one already carrying its
/// name, or appended at the end.
pub open spec fn insert_spec(skills: Seq<SkillView>, sk: SkillView) -> Seq<SkillView> {
    let i = skill_index_from(skills, sk.name, 0);
    if i < skills.len() {
        skills.update(i, sk)
    } else {
        skills.push(sk)
    }
}

impl SkillLoader {
    /// Names are unique.
    pub open spec fn wf(&self) -> bool {
        forall|i: int, j: int|
            0 <= i < j < self@.len() ==> #[trigger] self@[i].name != #[trigger] self@[j].name
    }

    /// A loader with no skills.
    pub fn new() -> (r: SkillLoader)
        ensures
            r@ == Seq::<SkillView>::empty(),
            r.wf(),
    {
        let r = SkillLoader { skills: Vec::new() };
        proof {
            assert(r@ =~= Seq::<SkillView>::empty());
        }
        r
    }

    /// Index of the skill carrying `name`, or the skill count.
    fn index_of(&self, name: &str) -> (r: usize)
        ensures
            r == skill_index_from(self@, name@, 0),
            r <= self@.len(),
    {
        let n = self.skills.len();
        let mut i: usize = 0;
        while i < n
            invariant
                i <= n,
                n == self@.len(),
                n == self.skills@.len(),
                skill_index_from(self@, name@, 0) == skill_index_from(self@, name@, i as int),
            decreases n - i,
        {
            if str_eq(self.skills[i].name.as_str(), name) {
                return i;
            }
            i = i + 1;
        }
        n
    }

    /// Put a skill in: it replaces the skill already carrying its name,
    /// or is appended.
    pub fn insert(&mut self, skill: Skill)
        requires
            old(self).wf(),
        ensures
            final(self).wf(),
            final(self)@ == insert_spec(old(self)@, skill@),
    {
        let ghost old_view = self@;
        let ghost skv = skill@;
        let i = self.index_of(skill.name.as_str());
        proof {
            lemma_skill_index_from(old_view, skv.name, 0);
        }
        if i < self.skills.len() {
            self.skills.set(i, skill);
            proof {
                assert(self@ =~= old_view.update(i as int, skv));
                // The replaced entry carried the same name, so the name
                // sequence, and with it uniqueness, is unchanged.
                assert(old_view[i as int].name == skv.name);
                assert(forall|k: int| 0 <= k < self@.len() ==> #[trigger] self@[k].name
                    == old_view[k].name);
            }
        } else {
            self.skills.push(skill);
            proof {
                assert(self@ =~= old_view.push(skv));
            }
        }
    }

    /// How many skills are loaded.
    pub fn len(&self) -> (r: usize)
        ensures
            r == self@.len(),
    {
        self.skills.len()
    }

    /// Parse a manifest and, when it is valid, load it as a skill with
    /// the given folder path and resource listings. Invalid manifests
    /// change nothing.
    pub fn add_unit(&mut self, content: &str, dir: String, resources: Vec<ResourceGroup>) -> (
        added: bool)
        requires
            old(self).wf(),
        ensures
            final(self).wf(),
            match parse_skill_spec(content@) {
                Some(p) => added && final(self)@ == insert_spec(
                    old(self)@,
                    SkillView {
                        name: p.name,
                        description: p.description,
                        body: p.body,
                        dir: dir@,
                        resources: resources.deep_view(),
                    },
                ),
                None => !added && final(self)@ == old(self)@,
            },
    {
        match parse_skill_md(content) {
            Some(p) => {
                let skill = Skill {
                    name: p.name,
                    description: p.description,
                    body: p.body,
                    dir,
                    resources,
                };
                self.insert(skill);
                true
            },
            None => false,
        }
    }

    /// Render one line of name and description per skill — the cheap
    /// layer that is always available.
    pub fn get_descriptions(&self) -> (r: String)
        ensures
            r@ == descriptions_spec(self@),
    {
        let n = self.skills.len();
        if n == 0 {
            return String::from_str("(no skills available)");
        }
        let mut out = String::new();
        let mut i: usize = 0;
        while i < n
            invariant
                i <= n,
                n == self@.len(),
                n == self.skills@.len(),
                out@ == if i == 0 {
                    Seq::<char>::empty()
                } else {
                    desc_lines(self@.take(i as int))
                },
            decreases n - i,
        {
            if i > 0 {
                out.append("\n");
            }
            out.append("- ");
            out.append(self.skills[i].name.as_str());
            out.append(": ");
            out.append(self.skills[i].description.as_str());
            proof {
                assert(self@.take(i + 1).drop_last() =~= self@.take(i as int));
                assert(self@.take(i + 1).last() == self@[i as int]);
                assert(out@ =~= desc_lines(self@.take(i + 1)));
            }
            i = i + 1;
        }
        proof {
            assert(self@.take(n as int) =~= self@);
        }
        out
    }

    /// The names of the loaded skills, in load order.
    pub fn list_skills(&self) -> (r: Vec<String>)
        ensures
            r.deep_view().len() == self@.len(),
            forall|i: int| 0 <= i < self@.len() ==> r.deep_view()[i] == self@[i].name,
    {
        let n = self.skills.len();
        let mut out: Vec<String> = Vec::new();
        let mut i: usize = 0;
        while i < n
            invariant
                i <= n,
                n == self@.len(),
                n == self.skills@.len(),
                out@.len() == i,
                forall|j: int| 0 <= j < i ==> out.deep_view()[j] == self@[j].name,
            decreases n - i,
        {
            let ghost before = out.deep_view();
            out.push(self.skills[i].name.clone());
            proof {
                assert(out.deep_view() =~= before.push(self@[i as int].name));
            }
            i = i + 1;
        }
        out
    }

    /// Resolve a skill by name: its heading, body, and the listing of
    /// its non-empty resource folders; or nothing when the name is
    /// unknown.
    pub fn get_skill_content(&self, name: &str) -> (r: Option<String>)
        ensures
            r is Some <==> skill_index_from(self@, name@, 0) < self@.len(),
            match r {
                Some(t) => t@ == content_spec(self@[skill_index_from(self@, name@, 0)]),
                None => true,
            },
    {
        let i = self.index_of(name);
        if i >= self.skills.len() {
            return None;
        }
        let skill = &self.skills[i];
        let ghost sv = self@[i as int];
        let mut out = String::from_str("# Skill: ");
        out.append(skill.name.as_str());
        out.append("\n\n");
        out.append(skill.body.as_str());
        let gn = skill.resources.len();
        let ghost gs = skill.resources.deep_view();
        let mut has: bool = false;
        let mut k: usize = 0;
        while k < gn
            invariant
                k <= gn,
                gn == skill.resources@.len(),
                gs == skill.resources.deep_view(),
                has <==> exists|j: int| 0 <= j < k && #[trigger] gs[j].files.len() > 0,
            decreases gn - k,
        {
            let fl = skill.resources[k].files.len();
            proof {
                assert(fl == gs[k as int].files.len());
            }
            if fl > 0 {
                has = true;
            }
            k = k + 1;
        }
        proof {
            assert(gs == sv.resources);
            assert(has == has_resources(sv.resources));
        }
        if has {
            out.append("\n\n**Available resources in ");
            out.append(skill.dir.as_str());
            out.append(":**\n");
            let mut j: usize = 0;
            while j < gn
                invariant
                    j <= gn,
                    gn == skill.resources@.len(),
                    gs == skill.resources.deep_view(),
                    has_resources(gs),
                    out@ == "# Skill: "@ + sv.name + "\n\n"@ + sv.body
                        + "\n\n**Available resources in "@ + sv.dir + ":**\n"@
                        + resource_lines(gs.take(j as int)),
                decreases gn - j,
            {
                if skill.resources[j].files.len() > 0 {
                    out.append("- ");
                    out.append(skill.resources[j].label.as_str());
                    out.append(": ");
                    let files = join_strings(&skill.resources[j].files, ", ");
                    out.append(files.as_str());
                    out.append("\n");
                }
                proof {
                    assert(gs.take(j + 1).drop_last() =~= gs.take(j as int));
                    assert(gs.take(j + 1).last() == gs[j as int]);
                }
                j = j + 1;
            }
            proof {
                assert(gs.take(gn as int) =~= gs);
                assert(out@ =~= content_spec(sv));
            }
        }
        proof {
            assert(out@ =~= content_spec(sv));
        }
        Some(out)
    }
}

} // verus!

verus! {

/// The names of the skills, in order.
pub open spec fn names_of(skills: Seq<SkillView>) -> Seq<Seq<char>> {
    skills.map_values(|sk: SkillView| sk.name)
}

/// The tool result for loading a known skill: the content wrapped in
/// tags, followed by an instruction to follow it.
pub open spec fn skill_loaded_message(name: Seq<char>, content: Seq<char>) -> Seq<char> {
    "<skill-loaded name=\""@ + name + "\">\n"@ + content
        + "\n</skill-loaded>\n\nFollow the instructions in the skill above to complete the user's task."@
}

/// The tool result for an unknown skill name, listing what is loaded.
pub open spec fn unknown_skill_message(name: Seq<char>, skills: Seq<SkillView>) -> Seq<char> {
    "Error: Unknown skill '"@ + name + "'. Available: "@ + if skills.len() == 0 {
        "none"@
    } else {
        join_sep(names_of(skills), ", "@)
    }
}

/// Resolve a skill and fold the outcome into one tool-result string:
/// the tagged content for a known name, an error listing the loaded
/// names for an unknown one.
pub fn run_skill(loader: &SkillLoader, skill_name: &str) -> (r: String)
    ensures
        skill_index_from(loader@, skill_name@, 0) < loader@.len() ==> r@ == skill_loaded_message(
            skill_name@,
            content_spec(loader@[skill_index_from(loader@, skill_name@, 0)]),
        ),
        skill_index_from(loader@, skill_name@, 0) >= loader@.len() ==> r@ == unknown_skill_message(
            skill_name@,
            loader@,
        ),
{
    match loader.get_skill_content(skill_name) {
        Some(content) => {
            let mut out = String::from_str("<skill-loaded name=\"");
            out.append(skill_name);
            out.append("\">\n");
            out.append(content.as_str());
            out.append(
                "\n</skill-loaded>\n\nFollow the instructions in the skill above to complete the user's task.",
            );
            proof {
                assert(out@ =~= skill_loaded_message(
                    skill_name@,
                    content_spec(loader@[skill_index_from(loader@, skill_name@, 0)]),
                ));
            }
            out
        },
        None => {
            let names = loader.list_skills();
            let mut out = String::from_str("Error: Unknown skill '");
            out.append(skill_name);
            out.append("'. Available: ");
            if names.len() == 0 {
                out.append("none");
            } else {
                let joined = join_strings(&names, ", ");
                proof {
                    assert(names.deep_view() =~= names_of(loader@));
                }
                out.append(joined.as_str());
            }
            proof {
                assert(out@ =~= unknown_skill_message(skill_name@, loader@));
            }
            out
        },
    }
}

/// Each skill's description line occurs in the joined description text.
proof fn lemma_desc_lines_contains(skills: Seq<SkillView>, idx: int)
    requires
        0 <= idx < skills.len(),
    ensures
        has_sub(desc_lines(skills), desc_line(skills[idx])),
    decreases skills.len(),
{
    let line = desc_line(skills[idx]);
    reveal_strlit("\n");
    assert("\n"@.len() == 1);
    if skills.len() == 1 {
        assert(desc_lines(skills).subrange(0, line.len() as int) =~= line);
        assert(is_match_at(desc_lines(skills), line, 0));
    } else if idx == skills.len() - 1 {
        let o = desc_lines(skills.drop_last()).len() as int + 1;
        assert(desc_lines(skills).subrange(o, o + line.len() as int) =~= line);
        assert(is_match_at(desc_lines(skills), line, o));
    } else {
        let prior = skills.drop_last();
        assert(prior[idx] == skills[idx]);
        lemma_desc_lines_contains(prior, idx);
        let o = choose|o: int| 0 <= o && is_match_at(desc_lines(prior), line, o);
        assert(desc_lines(skills).subrange(o, o + line.len() as int) =~= desc_lines(
            prior,
        ).subrange(o, o + line.len() as int));
        assert(is_match_at(desc_lines(skills), line, o));
    }
}

/// Skill round trip: a loader that holds a skill lists it in the
/// rendered descriptions as its own `- name: description` line, and the
/// content resolved for its name carries the skill's body verbatim.
pub proof fn lemma_skill_round_trip(skills: Seq<SkillView>, idx: int)
    requires
        0 <= idx < skills.len(),
    ensures
        has_sub(descriptions_spec(skills), "- "@ + skills[idx].name + ": "@
            + skills[idx].description),
        has_sub(content_spec(skills[idx]), skills[idx].body),
{
    lemma_desc_lines_contains(skills, idx);
    let sk = skills[idx];
    let pre = "# Skill: "@ + sk.name + "\n\n"@;
    let o = pre.len() as int;
    assert(content_spec(sk).subrange(o, o + sk.body.len() as int) =~= sk.body);
    assert(is_match_at(content_spec(sk), sk.body, o));
}

} // verus!
