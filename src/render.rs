//! What the screen shows, as plain values: a header with three section
//! labels, the checklist with its highlighted row, and the log panel.

use crate::session::{SessionState, Task};
use vstd::prelude::*;

verus! {

/// One checklist row: the checkbox glyph and the task's name.
pub struct Row {
    pub marker: String,
    pub name: String,
}

/// The contents of the three stacked panels.
pub struct Screen {
    pub title: String,
    pub tabs: Vec<String>,
    pub list_title: String,
    pub rows: Vec<Row>,
    /// The highlighted row.
    pub selected: usize,
    pub log_title: String,
    /// The log lines, oldest first, one per line.
    pub log_text: String,
}

/// The checkbox glyph of a task.
pub open spec fn marker_of(enabled: bool) -> Seq<char> {
    if enabled {
        "[x]"@
    } else {
        "[ ]"@
    }
}

/// The lines joined with a newline between each two.
pub open spec fn joined(lines: Seq<Seq<char>>) -> Seq<char>
    decreases lines.len(),
{
    if lines.len() == 0 {
        Seq::empty()
    } else if lines.len() == 1 {
        lines[0]
    } else {
        joined(lines.drop_last()) + "\n"@ + lines.last()
    }
}

/// Joins the lines with a newline between each two.
pub fn join_lines(lines: &Vec<String>) -> (r: String)
    ensures
        r@ == joined(lines@.map_values(|s: String| s@)),
{
    let ghost views = lines@.map_values(|s: String| s@);
    let mut r = String::new();
    let mut i: usize = 0;
    while i < lines.len()
        invariant
            i <= lines.len(),
            views == lines@.map_values(|s: String| s@),
            r@ == joined(views.subrange(0, i as int)),
        decreases lines.len() - i,
    {
        if i > 0 {
            r.append("\n");
        }
        r.append(lines[i].as_str());
        proof {
            let next = views.subrange(0, i + 1);
            assert(next.drop_last() =~= views.subrange(0, i as int));
            if i == 0 {
                assert(joined(views.subrange(0, 0)) == Seq::<char>::empty());
                assert(r@ =~= next[0]);
            }
        }
        i = i + 1;
    }
    proof {
        assert(views.subrange(0, lines.len() as int) =~= views);
    }
    r
}

/// The checklist row of one task.
pub fn task_row(t: &Task) -> (r: Row)
    ensures
        r.marker@ == marker_of(t.enabled),
        r.name@ == t.name@,
{
    let marker = if t.enabled {
        String::from_str("[x]")
    } else {
        String::from_str("[ ]")
    };
    Row { marker, name: t.name.clone() }
}

/// The screen for the session; reads it and changes nothing.
pub fn render(s: &SessionState) -> (scr: Screen)
    ensures
        scr.title@ == "Windows Turbo Optimizer"@,
        scr.tabs@.map_values(|t: String| t@) == seq!["Selección"@, "Ejecución"@, "Logs"@],
        scr.list_title@ == "Optimización"@,
        scr.rows@.len() == s@.tasks.len(),
        forall|i: int|
            0 <= i < scr.rows@.len() ==> (#[trigger] scr.rows@[i]).marker@ == marker_of(
                s@.tasks[i].enabled,
            ) && scr.rows@[i].name@ == s@.tasks[i].name@,
        scr.selected == s@.cursor,
        scr.log_title@ == "Logs"@,
        scr.log_text@ == joined(s@.logs),
{
    let mut tabs: Vec<String> = Vec::new();
    tabs.push(String::from_str("Selección"));
    tabs.push(String::from_str("Ejecución"));
    tabs.push(String::from_str("Logs"));
    assert(tabs@.map_values(|t: String| t@) =~= seq!["Selección"@, "Ejecución"@, "Logs"@]);
    let tasks = s.tasks();
    let mut rows: Vec<Row> = Vec::new();
    let mut i: usize = 0;
    while i < tasks.len()
        invariant
            i <= tasks.len(),
            tasks@ == s@.tasks,
            rows@.len() == i,
            forall|j: int|
                0 <= j < i ==> (#[trigger] rows@[j]).marker@ == marker_of(tasks@[j].enabled)
                    && rows@[j].name@ == tasks@[j].name@,
        decreases tasks.len() - i,
    {
        rows.push(task_row(&tasks[i]));
        i = i + 1;
    }
    let log_text = join_lines(s.logs());
    Screen {
        title: String::from_str("Windows Turbo Optimizer"),
        tabs,
        list_title: String::from_str("Optimización"),
        rows,
        selected: s.cursor(),
        log_title: String::from_str("Logs"),
        log_text,
    }
}

} // verus!
