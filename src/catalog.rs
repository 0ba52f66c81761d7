//! The built-in catalog of maintenance operations: name, command tokens and
//! whether each is enabled by default. It is configuration handed to
//! `SessionState::new`, and nothing in the session logic depends on it.

use crate::session::Task;
use vstd::prelude::*;

verus! {

/// One catalog entry: name, command tokens, enabled by default.
pub open spec fn entry(name: &str, command: Seq<&str>, enabled: bool) -> (
    Seq<char>,
    Seq<Seq<char>>,
    bool,
) {
    (name@, command.map_values(|t: &str| t@), enabled)
}

/// The built-in catalog, in display and execution order.
pub open spec fn default_entries() -> Seq<(Seq<char>, Seq<Seq<char>>, bool)> {
    seq![
        entry("Limpiar TEMP", seq!["cmd", "/C", "del /q/f/s %TEMP%\\*"], true),
        entry("Limpiar Prefetch", seq!["cmd", "/C", "del /q/f/s C:\\Windows\\Prefetch\\*"], true),
        entry("Flush DNS", seq!["ipconfig", "/flushdns"], true),
        entry("Reset Winsock", seq!["netsh", "winsock", "reset"], true),
        entry("Reset IP", seq!["netsh", "int", "ip", "reset"], true),
        entry(
            "DISM Cleanup",
            seq!["dism", "/online", "/cleanup-image", "/startcomponentcleanup"],
            true,
        ),
        entry("SFC Verify", seq!["sfc", "/verifyonly"], true),
        entry("Desactivar Telemetría", seq!["sc", "stop", "DiagTrack"], false),
        entry(
            "Limpiar Windows Update",
            seq!["cmd", "/C", "rd /s /q C:\\Windows\\SoftwareDistribution\\Download"],
            true,
        ),
        entry("Optimizar HDD", seq!["defrag", "C:", "/U", "/X"], false),
    ]
}

/// Whether `t` is the task that `e` describes.
pub open spec fn task_matches(t: Task, e: (Seq<char>, Seq<Seq<char>>, bool)) -> bool {
    &&& t.name@ == e.0
    &&& t.command@.map_values(|s: String| s@) == e.1
    &&& t.enabled == e.2
}

fn make_task(name: &str, parts: Vec<&str>, enabled: bool) -> (t: Task)
    ensures
        t.name@ == name@,
        t.command@.map_values(|s: String| s@) == parts@.map_values(|p: &str| p@),
        t.enabled == enabled,
{
    let mut command: Vec<String> = Vec::new();
    let mut i: usize = 0;
    while i < parts.len()
        invariant
            i <= parts.len(),
            command@.len() == i,
            command@.map_values(|s: String| s@) == parts@.subrange(0, i as int).map_values(
                |p: &str| p@,
            ),
        decreases parts.len() - i,
    {
        let token = String::from_str(parts[i]);
        let ghost before = command@;
        command.push(token);
        proof {
            let lhs = command@.map_values(|s: String| s@);
            let rhs = parts@.subrange(0, i + 1).map_values(|p: &str| p@);
            let prev = before.map_values(|s: String| s@);
            assert(prev == parts@.subrange(0, i as int).map_values(|p: &str| p@));
            assert forall|j: int| 0 <= j < i + 1 implies lhs[j] == rhs[j] by {
                if j < i {
                    assert(prev[j] == parts@.subrange(0, i as int)[j]@);
                    assert(lhs[j] == prev[j]);
                } else {
                    assert(lhs[j] == token@);
                }
            }
            assert(lhs =~= rhs);
        }
        i = i + 1;
    }
    proof {
        assert(parts@.subrange(0, parts.len() as int) =~= parts@);
    }
    Task::new(name, command, enabled)
}

/// The built-in catalog as tasks, each with its default enabled flag.
pub fn default_catalog() -> (r: Vec<Task>)
    ensures
        r@.len() == default_entries().len(),
        forall|i: int| 0 <= i < r@.len() ==> task_matches(#[trigger] r@[i], default_entries()[i]),
{
    let mut r: Vec<Task> = Vec::new();
    r.push(make_task("Limpiar TEMP", vec!["cmd", "/C", "del /q/f/s %TEMP%\\*"], true));
    r.push(make_task("Limpiar Prefetch", vec!["cmd", "/C", "del /q/f/s C:\\Windows\\Prefetch\\*"], true));
    r.push(make_task("Flush DNS", vec!["ipconfig", "/flushdns"], true));
    r.push(make_task("Reset Winsock", vec!["netsh", "winsock", "reset"], true));
    r.push(make_task("Reset IP", vec!["netsh", "int", "ip", "reset"], true));
    r.push(make_task(
        "DISM Cleanup",
        vec!["dism", "/online", "/cleanup-image", "/startcomponentcleanup"],
        true,
    ));
    r.push(make_task("SFC Verify", vec!["sfc", "/verifyonly"], true));
    r.push(make_task("Desactivar Telemetría", vec!["sc", "stop", "DiagTrack"], false));
    r.push(make_task(
        "Limpiar Windows Update",
        vec!["cmd", "/C", "rd /s /q C:\\Windows\\SoftwareDistribution\\Download"],
        true,
    ));
    r.push(make_task("Optimizar HDD", vec!["defrag", "C:", "/U", "/X"], false));
    r
}

} // verus!
