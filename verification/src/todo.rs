//! The todo manager: a single ordered task list with enforced
//! constraints, replaced atomically on each valid update and left
//! untouched on any invalid one.

use vstd::prelude::*;
use vstd::string::*;

use crate::text::{all_blank, dec_rep, is_blank, u64_to_string};

verus! {

/// The three states a task can be in.
#[derive(Clone, Copy, Debug, PartialEq, Eq, Structural)]
pub enum TodoStatus {
    Pending,
    InProgress,
    Completed,
}

/// One task of the list.
#[derive(Clone, Debug)]
pub struct TodoItem {
    /// What to do.
    pub content: String,
    /// Where the task stands.
    pub status: TodoStatus,
    /// Present-tense form shown while the task is in progress.
    pub active_form: String,
}

/// Mathematical image of a task.
#[verifier::ext_equal]
pub ghost struct TodoItemView {
    pub content: Seq<char>,
    pub status: TodoStatus,
    pub active_form: Seq<char>,
}

impl View for TodoItem {
    type V = TodoItemView;

    open spec fn view(&self) -> TodoItemView {
        TodoItemView { content: self.content@, status: self.status, active_form: self.active_form@ }
    }
}

impl DeepView for TodoItem {
    type V = TodoItemView;

    open spec fn deep_view(&self) -> TodoItemView {
        self.view()
    }
}

/// A task is well-formed when neither its content nor its active form
/// is blank.
pub open spec fn item_valid(it: TodoItemView) -> bool {
    !all_blank(it.content) && !all_blank(it.active_form)
}

/// How many tasks of the list are in progress.
pub open spec fn in_progress_total(l: Seq<TodoItemView>) -> nat
    decreases l.len(),
{
    if l.len() == 0 {
        0
    } else {
        in_progress_total(l.drop_last()) + if l.last().status == TodoStatus::InProgress {
            1nat
        } else {
            0nat
        }
    }
}

/// How many tasks of the list are completed.
pub open spec fn completed_total(l: Seq<TodoItemView>) -> nat
    decreases l.len(),
{
    if l.len() == 0 {
        0
    } else {
        completed_total(l.drop_last()) + if l.last().status == TodoStatus::Completed {
            1nat
        } else {
            0nat
        }
    }
}

/// A list is accepted when every task is well-formed, there are at most
/// 20 tasks, and at most one is in progress.
pub open spec fn list_valid(l: Seq<TodoItemView>) -> bool {
    &&& forall|i: int| 0 <= i < l.len() ==> item_valid(#[trigger] l[i])
    &&& l.len() <= 20
    &&& in_progress_total(l) <= 1
}

/// Index of the first ill-formed task at or after `i`, or the length of
/// the list when every one from `i` on is well-formed.
pub open spec fn first_invalid_from(l: Seq<TodoItemView>, i: int) -> int
    decreases l.len() - i,
    when 0 <= i <= l.len()
{
    if i >= l.len() {
        l.len() as int
    } else if !item_valid(l[i]) {
        i
    } else {
        first_invalid_from(l, i + 1)
    }
}

/// Why an update was rejected.
#[derive(Clone, Copy, Debug, PartialEq, Eq, Structural)]
pub enum TodoError {
    /// The task at this index has blank content.
    ContentRequired(usize),
    /// The task at this index has a blank active form.
    ActiveFormRequired(usize),
    /// More than 20 tasks.
    TooMany,
    /// More than one task in progress.
    MultipleInProgress,
}

/// The first violation an update of the list would report, checked in
/// the order the manager checks them: each task in turn (content before
/// active form), then the length bound, then the in-progress bound.
pub open spec fn violation_of(l: Seq<TodoItemView>) -> Option<TodoError> {
    let fb = first_invalid_from(l, 0);
    if fb < l.len() {
        if all_blank(l[fb].content) {
            Some(TodoError::ContentRequired(fb as usize))
        } else {
            Some(TodoError::ActiveFormRequired(fb as usize))
        }
    } else if l.len() > 20 {
        Some(TodoError::TooMany)
    } else if in_progress_total(l) > 1 {
        Some(TodoError::MultipleInProgress)
    } else {
        None
    }
}

impl TodoError {
    /// The text of the error, as the manager reports it.
    pub open spec fn message_spec(self) -> Seq<char> {
        match self {
            TodoError::ContentRequired(i) => "Item "@ + dec_rep(i as nat)
                + ": content required"@,
            TodoError::ActiveFormRequired(i) => "Item "@ + dec_rep(i as nat)
                + ": activeForm required"@,
            TodoError::TooMany => "Max 20 todos allowed"@,
            TodoError::MultipleInProgress => "Only one task can be in_progress at a time"@,
        }
    }

    /// Render the error as text.
    pub fn message(&self) -> (r: String)
        ensures
            r@ == self.message_spec(),
    {
        match self {
            TodoError::ContentRequired(i) => {
                let mut s = String::from_str("Item ");
                let num = u64_to_string(*i as u64);
                s.append(num.as_str());
                s.append(": content required");
                s
            },
            TodoError::ActiveFormRequired(i) => {
                let mut s = String::from_str("Item ");
                let num = u64_to_string(*i as u64);
                s.append(num.as_str());
                s.append(": activeForm required");
                s
            },
            TodoError::TooMany => String::from_str("Max 20 todos allowed"),
            TodoError::MultipleInProgress => String::from_str(
                "Only one task can be in_progress at a time",
            ),
        }
    }
}

/// The text of one rendered task line.
pub open spec fn item_line(it: TodoItemView) -> Seq<char> {
    match it.status {
        TodoStatus::Completed => "[x] "@ + it.content,
        TodoStatus::InProgress => "[>] "@ + it.content + " <- "@ + it.active_form,
        TodoStatus::Pending => "[ ] "@ + it.content,
    }
}

/// All task lines joined with newlines.
pub open spec fn joined_lines(l: Seq<TodoItemView>) -> Seq<char>
    decreases l.len(),
{
    if l.len() == 0 {
        Seq::empty()
    } else if l.len() == 1 {
        item_line(l[0])
    } else {
        joined_lines(l.drop_last()) + "\n"@ + item_line(l.last())
    }
}

/// The full rendering of a list: one line per task and a summary line,
/// or a fixed text for the empty list.
pub open spec fn render_spec(l: Seq<TodoItemView>) -> Seq<char> {
    if l.len() == 0 {
        "No todos."@
    } else {
        joined_lines(l) + "\n\n("@ + dec_rep(completed_total(l)) + "/"@ + dec_rep(l.len() as nat)
            + " completed)"@
    }
}

/// Holds the current task list. Every accepted update replaces the list
/// whole; every rejected update leaves it untouched.
pub struct TodoManager {
    items: Vec<TodoItem>,
}

impl View for TodoManager {
    type V = Seq<TodoItemView>;

    closed spec fn view(&self) -> Seq<TodoItemView> {
        self.items.deep_view()
    }
}

impl TodoManager {
    /// The stored list always satisfies the constraints.
    pub open spec fn wf(&self) -> bool {
        list_valid(self@)
    }

    /// A fresh manager with an empty list.
    pub fn new() -> (r: TodoManager)
        ensures
            r@ == Seq::<TodoItemView>::empty(),
            r.wf(),
    {
        let r = TodoManager { items: Vec::new() };
        proof {
            assert(r@ =~= Seq::<TodoItemView>::empty());
        }
        r
    }

    /// Validate `new_items` and, if they pass, replace the stored list
    /// with them and return the rendering of the new list. On any
    /// violation the stored list is left unchanged and the first
    /// violation is returned.
    pub fn update(&mut self, new_items: Vec<TodoItem>) -> (r: Result<String, TodoError>)
        requires
            old(self).wf(),
        ensures
            final(self).wf(),
            r is Ok <==> violation_of(new_items.deep_view()) is None,
            match r {
                Ok(rendered) => {
                    &&& final(self)@ == new_items.deep_view()
                    &&& list_valid(new_items.deep_view())
                    &&& rendered@ == render_spec(new_items.deep_view())
                },
                Err(e) => {
                    &&& final(self)@ == old(self)@
                    &&& violation_of(new_items.deep_view()) == Some(e)
                },
            },
    {
        let ghost dv = new_items.deep_view();
        let n = new_items.len();
        let mut in_progress: usize = 0;
        let mut i: usize = 0;
        while i < n
            invariant
                old(self).wf(),
                self@ == old(self)@,
                i <= n,
                n == new_items@.len(),
                dv == new_items.deep_view(),
                in_progress <= i,
                in_progress == in_progress_total(dv.take(i as int)),
                first_invalid_from(dv, 0) == first_invalid_from(dv, i as int),
                forall|j: int| 0 <= j < i ==> item_valid(#[trigger] dv[j]),
            decreases n - i,
        {
            let item = &new_items[i];
            if is_blank(item.content.as_str()) {
                return Err(TodoError::ContentRequired(i));
            }
            if is_blank(item.active_form.as_str()) {
                return Err(TodoError::ActiveFormRequired(i));
            }
            if matches!(item.status, TodoStatus::InProgress) {
                in_progress = in_progress + 1;
            }
            proof {
                assert(dv.take(i + 1).drop_last() =~= dv.take(i as int));
                assert(dv.take(i + 1).last() == dv[i as int]);
            }
            i = i + 1;
        }
        proof {
            assert(dv.take(n as int) =~= dv);
            assert(first_invalid_from(dv, 0) == dv.len());
        }
        if n > 20 {
            return Err(TodoError::TooMany);
        }
        if in_progress > 1 {
            return Err(TodoError::MultipleInProgress);
        }
        self.items = new_items;
        Ok(self.render())
    }

    /// Render the stored list: `[x]` for completed tasks, `[>]` with the
    /// active form for the task in progress, `[ ]` for pending ones, and
    /// a completed-over-total summary; or a fixed text when empty.
    pub fn render(&self) -> (r: String)
        ensures
            r@ == render_spec(self@),
    {
        let n = self.items.len();
        if n == 0 {
            proof {
                assert(self@.len() == 0);
            }
            return String::from_str("No todos.");
        }
        let mut out = String::new();
        let mut i: usize = 0;
        while i < n
            invariant
                0 < i <= n || i == 0,
                n == self.items@.len(),
                out@ == joined_lines(self@.take(i as int)),
            decreases n - i,
        {
            if i > 0 {
                out.append("\n");
            }
            let item = &self.items[i];
            match item.status {
                TodoStatus::Completed => {
                    out.append("[x] ");
                    out.append(item.content.as_str());
                },
                TodoStatus::InProgress => {
                    out.append("[>] ");
                    out.append(item.content.as_str());
                    out.append(" <- ");
                    out.append(item.active_form.as_str());
                },
                TodoStatus::Pending => {
                    out.append("[ ] ");
                    out.append(item.content.as_str());
                },
            }
            proof {
                assert(self@.take(i + 1).drop_last() =~= self@.take(i as int));
                assert(self@.take(i + 1).last() == self@[i as int]);
                if i == 0 {
                    assert(out@ =~= joined_lines(self@.take(1)));
                } else {
                    assert(out@ =~= joined_lines(self@.take(i + 1)));
                }
            }
            i = i + 1;
        }
        proof {
            assert(self@.take(n as int) =~= self@);
        }
        let completed = Self::count_completed(&self.items);
        out.append("\n\n(");
        let cs = u64_to_string(completed as u64);
        out.append(cs.as_str());
        out.append("/");
        let ts = u64_to_string(n as u64);
        out.append(ts.as_str());
        out.append(" completed)");
        proof {
            assert(out@ =~= render_spec(self@));
        }
        out
    }

    /// Count the completed tasks.
    fn count_completed(items: &Vec<TodoItem>) -> (c: usize)
        ensures
            c == completed_total(items.deep_view()),
            c <= items@.len(),
    {
        let ghost dv = items.deep_view();
        let n = items.len();
        let mut c: usize = 0;
        let mut i: usize = 0;
        while i < n
            invariant
                i <= n,
                n == items@.len(),
                dv == items.deep_view(),
                c <= i,
                c == completed_total(dv.take(i as int)),
            decreases n - i,
        {
            if matches!(items[i].status, TodoStatus::Completed) {
                c = c + 1;
            }
            proof {
                assert(dv.take(i + 1).drop_last() =~= dv.take(i as int));
                assert(dv.take(i + 1).last() == dv[i as int]);
            }
            i = i + 1;
        }
        proof {
            assert(dv.take(n as int) =~= dv);
        }
        c
    }
}

/// Apply an update and fold the outcome into one tool-result string:
/// the rendering of the accepted list, or the error text prefixed with
/// `Error: `.
pub fn run_todo(manager: &mut TodoManager, items: Vec<TodoItem>) -> (r: String)
    requires
        old(manager).wf(),
    ensures
        final(manager).wf(),
        match violation_of(items.deep_view()) {
            None => {
                &&& final(manager)@ == items.deep_view()
                &&& r@ == render_spec(items.deep_view())
            },
            Some(e) => {
                &&& final(manager)@ == old(manager)@
                &&& r@ == "Error: "@ + e.message_spec()
            },
        },
{
    match manager.update(items) {
        Ok(rendered) => rendered,
        Err(e) => {
            let mut s = String::from_str("Error: ");
            let m = e.message();
            s.append(m.as_str());
            s
        },
    }
}

/// The todo invariant: a list that passes validation — and therefore any
/// list the manager ever stores — has at most 20 tasks and at most one
/// in progress.
pub proof fn lemma_todo_invariant(l: Seq<TodoItemView>)
    requires
        list_valid(l),
    ensures
        l.len() <= 20,
        in_progress_total(l) <= 1,
{
}

} // verus!
