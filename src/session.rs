//! The session state: tasks with live enabled flags, the highlighted row,
//! the log of the last run, and the navigation, toggle and run operations.

use vstd::arithmetic::div_mod::{
    lemma_add_mod_noop, lemma_mod_add_multiples_vanish, lemma_mod_sub_multiples_vanish,
    lemma_small_mod, lemma_sub_mod_noop,
};
use vstd::prelude::*;

verus! {

/// One selectable maintenance operation.
pub struct Task {
    /// Display label, unique within one session.
    pub name: String,
    /// Program name followed by its arguments, handed over as they are.
    pub command: Vec<String>,
    /// Selected for execution; the user flips it.
    pub enabled: bool,
}

impl Task {
    pub fn new(name: &str, command: Vec<String>, enabled: bool) -> (t: Task)
        ensures
            t.name@ == name@,
            t.command == command,
            t.enabled == enabled,
    {
        Task { name: String::from_str(name), command, enabled }
    }
}

/// Log line present before the first run.
pub open spec fn ready_line() -> Seq<char> {
    "Sistema listo."@
}

/// Log line that opens every run.
pub open spec fn start_banner() -> Seq<char> {
    "Iniciando optimización...\n"@
}

/// Log line that closes every run.
pub open spec fn done_banner() -> Seq<char> {
    "\nOptimización completada."@
}

/// Log line written just before a task's command is handed to the runner.
pub open spec fn announcement(name: Seq<char>) -> Seq<char> {
    "Ejecutando: "@ + name
}

/// Cursor after one step down over `n` rows, wrapping from the last to the first.
pub open spec fn next_index(c: nat, n: nat) -> nat {
    if n == 0 {
        c
    } else if c + 1 >= n {
        0
    } else {
        c + 1
    }
}

/// Cursor after one step up over `n` rows, wrapping from the first to the last.
pub open spec fn prev_index(c: nat, n: nat) -> nat {
    if n == 0 {
        c
    } else if c == 0 {
        (n - 1) as nat
    } else {
        (c - 1) as nat
    }
}

/// The tasks with the flag of row `c` flipped (unchanged when `c` is no row).
pub open spec fn toggled(tasks: Seq<Task>, c: nat) -> Seq<Task> {
    if c < tasks.len() {
        tasks.update(c as int, Task { enabled: !tasks[c as int].enabled, ..tasks[c as int] })
    } else {
        tasks
    }
}

/// Indices below `n` of the enabled tasks, in ascending order.
pub open spec fn enabled_upto(tasks: Seq<Task>, n: int) -> Seq<usize>
    decreases n,
{
    if n <= 0 {
        seq![]
    } else if tasks[n - 1].enabled {
        enabled_upto(tasks, n - 1).push((n - 1) as usize)
    } else {
        enabled_upto(tasks, n - 1)
    }
}

/// Indices of the enabled tasks, in list order: the tasks that a run executes.
pub open spec fn enabled_indices(tasks: Seq<Task>) -> Seq<usize> {
    enabled_upto(tasks, tasks.len() as int)
}

/// Announcements for the enabled tasks below `n`, in list order.
pub open spec fn announced_upto(tasks: Seq<Task>, n: int) -> Seq<Seq<char>>
    decreases n,
{
    if n <= 0 {
        seq![]
    } else if tasks[n - 1].enabled {
        announced_upto(tasks, n - 1).push(announcement(tasks[n - 1].name@))
    } else {
        announced_upto(tasks, n - 1)
    }
}

/// The whole log of a run over `tasks`: start banner, one announcement per
/// enabled task in list order, completion banner.
pub open spec fn run_log(tasks: Seq<Task>) -> Seq<Seq<char>> {
    seq![start_banner()] + announced_upto(tasks, tasks.len() as int) + seq![done_banner()]
}

/// Cursor after `k` steps down over `n` rows.
pub open spec fn steps_down(c: nat, n: nat, k: nat) -> nat
    decreases k,
{
    if k == 0 {
        c
    } else {
        next_index(steps_down(c, n, (k - 1) as nat), n)
    }
}

/// Cursor after `k` steps up over `n` rows.
pub open spec fn steps_up(c: nat, n: nat, k: nat) -> nat
    decreases k,
{
    if k == 0 {
        c
    } else {
        prev_index(steps_up(c, n, (k - 1) as nat), n)
    }
}

proof fn lemma_steps_down_mod(c: nat, n: nat, k: nat)
    requires
        c < n,
    ensures
        steps_down(c, n, k) == (c + k) as int % (n as int),
    decreases k,
{
    if k == 0 {
        lemma_small_mod(c, n);
    } else {
        lemma_steps_down_mod(c, n, (k - 1) as nat);
        let a = (c + k - 1) % (n as int);
        lemma_add_mod_noop(c + k - 1, 1, n as int);
        if n == 1 {
            assert(1int % 1int == 0);
            assert((c + k) as int % 1int == 0);
        } else {
            lemma_small_mod(1, n);
            if a + 1 < n {
                lemma_small_mod((a + 1) as nat, n);
            } else {
                assert((a + 1) % (n as int) == 0) by {
                    assert(a + 1 == n);
                    lemma_mod_add_multiples_vanish(0, n as int);
                }
            }
        }
    }
}

proof fn lemma_steps_up_mod(c: nat, n: nat, k: nat)
    requires
        c < n,
    ensures
        steps_up(c, n, k) == (c - k) % (n as int),
    decreases k,
{
    if k == 0 {
        lemma_small_mod(c, n);
    } else {
        lemma_steps_up_mod(c, n, (k - 1) as nat);
        let a = (c - (k - 1)) % (n as int);
        lemma_sub_mod_noop(c - (k - 1), 1, n as int);
        if n == 1 {
            assert(1int % 1int == 0);
            assert((c - k) as int % 1int == 0);
        } else {
            lemma_small_mod(1, n);
            if a >= 1 {
                lemma_small_mod((a - 1) as nat, n);
            } else {
                assert((a - 1) % (n as int) == n - 1) by {
                    lemma_mod_add_multiples_vanish(-1, n as int);
                    lemma_small_mod((n - 1) as nat, n);
                }
            }
        }
    }
}

/// On a non-empty list, moving down as many times as there are rows brings
/// the cursor back to where it started, and so does moving up.
pub proof fn lemma_full_cycle(c: nat, n: nat)
    requires
        0 < n,
        c < n,
    ensures
        steps_down(c, n, n) == c,
        steps_up(c, n, n) == c,
{
    lemma_steps_down_mod(c, n, n);
    lemma_steps_up_mod(c, n, n);
    lemma_mod_add_multiples_vanish(c as int, n as int);
    lemma_mod_sub_multiples_vanish(c as int, n as int);
    lemma_small_mod(c, n);
}

/// Toggling the same row twice gives back the task list unchanged.
pub proof fn lemma_toggle_twice(tasks: Seq<Task>, c: nat)
    ensures
        toggled(toggled(tasks, c), c) == tasks,
{
    if c < tasks.len() {
        assert(toggled(toggled(tasks, c), c) =~= tasks);
    }
}

proof fn lemma_none_enabled_upto(tasks: Seq<Task>, n: int)
    requires
        n <= tasks.len(),
        forall|i: int| 0 <= i < tasks.len() ==> !(#[trigger] tasks[i]).enabled,
    ensures
        enabled_upto(tasks, n) == Seq::<usize>::empty(),
        announced_upto(tasks, n) == Seq::<Seq<char>>::empty(),
    decreases n,
{
    if n > 0 {
        lemma_none_enabled_upto(tasks, n - 1);
    }
}

/// A run over a list with no enabled task invokes nothing and leaves exactly
/// the start and completion banners in the log.
pub proof fn lemma_run_with_nothing_enabled(tasks: Seq<Task>)
    requires
        forall|i: int| 0 <= i < tasks.len() ==> !(#[trigger] tasks[i]).enabled,
    ensures
        enabled_indices(tasks).len() == 0,
        run_log(tasks) == seq![start_banner(), done_banner()],
        run_log(tasks).len() == 2,
{
    lemma_none_enabled_upto(tasks, tasks.len() as int);
    assert(run_log(tasks) =~= seq![start_banner(), done_banner()]);
}

/// Abstract value of a session.
pub struct SessionModel {
    pub tasks: Seq<Task>,
    pub cursor: nat,
    pub logs: Seq<Seq<char>>,
    pub running: bool,
}

/// Executes a task's command on behalf of a run; what it does with the
/// command and how that ends is not the session's concern.
pub trait CommandRunner {
    fn run(&mut self, command: &Vec<String>);
}

/// The mutable state of one interactive session.
pub struct SessionState {
    tasks: Vec<Task>,
    cursor: usize,
    logs: Vec<String>,
    running: bool,
}

impl View for SessionState {
    type V = SessionModel;

    closed spec fn view(&self) -> SessionModel {
        SessionModel {
            tasks: self.tasks@,
            cursor: self.cursor as nat,
            logs: self.logs@.map_values(|s: String| s@),
            running: self.running,
        }
    }
}

impl SessionState {
    /// The cursor is a row of the list, or 0 when the list is empty.
    pub open spec fn wf(&self) -> bool {
        &&& self@.tasks.len() == 0 ==> self@.cursor == 0
        &&& self@.tasks.len() > 0 ==> self@.cursor < self@.tasks.len()
    }

    /// A fresh session over `tasks`: first row highlighted, not running, and
    /// the log holding the ready line.
    pub fn new(tasks: Vec<Task>) -> (s: SessionState)
        ensures
            s.wf(),
            s@.tasks == tasks@,
            s@.cursor == 0,
            s@.logs == seq![ready_line()],
            !s@.running,
    {
        let mut logs: Vec<String> = Vec::new();
        logs.push(String::from_str("Sistema listo."));
        let s = SessionState { tasks, cursor: 0, logs, running: false };
        assert(s@.logs =~= seq![ready_line()]);
        s
    }

    pub fn tasks(&self) -> (r: &Vec<Task>)
        ensures
            r@ == self@.tasks,
    {
        &self.tasks
    }

    pub fn cursor(&self) -> (r: usize)
        ensures
            r == self@.cursor,
    {
        self.cursor
    }

    pub fn logs(&self) -> (r: &Vec<String>)
        ensures
            r@.map_values(|s: String| s@) == self@.logs,
    {
        &self.logs
    }

    pub fn running(&self) -> (r: bool)
        ensures
            r == self@.running,
    {
        self.running
    }

    /// Moves the highlight one row down, from the last row to the first.
    pub fn move_down(&mut self)
        requires
            old(self).wf(),
        ensures
            final(self).wf(),
            final(self)@ == (SessionModel {
                cursor: next_index(old(self)@.cursor, old(self)@.tasks.len()),
                ..old(self)@
            }),
    {
        let n = self.tasks.len();
        if n > 0 {
            if self.cursor >= n - 1 {
                self.cursor = 0;
            } else {
                self.cursor = self.cursor + 1;
            }
        }
    }

    /// Moves the highlight one row up, from the first row to the last.
    pub fn move_up(&mut self)
        requires
            old(self).wf(),
        ensures
            final(self).wf(),
            final(self)@ == (SessionModel {
                cursor: prev_index(old(self)@.cursor, old(self)@.tasks.len()),
                ..old(self)@
            }),
    {
        let n = self.tasks.len();
        if n > 0 {
            if self.cursor == 0 {
                self.cursor = n - 1;
            } else {
                self.cursor = self.cursor - 1;
            }
        }
    }

    /// Flips the enabled flag of the highlighted task.
    pub fn toggle_current(&mut self)
        requires
            old(self).wf(),
        ensures
            final(self).wf(),
            final(self)@ == (SessionModel {
                tasks: toggled(old(self)@.tasks, old(self)@.cursor),
                ..old(self)@
            }),
    {
        let c = self.cursor;
        if c < self.tasks.len() {
            let flag = self.tasks[c].enabled;
            self.tasks[c].enabled = !flag;
        }
        proof {
            assert(self@.tasks =~= toggled(old(self)@.tasks, old(self)@.cursor));
        }
    }
    /// Starts a run: marks it running and replaces the log by the start banner.
    pub fn begin_run(&mut self)
        requires
            old(self).wf(),
        ensures
            final(self).wf(),
            final(self)@ == (SessionModel {
                logs: seq![start_banner()],
                running: true,
                ..old(self)@
            }),
    {
        self.running = true;
        self.logs.clear();
        self.logs.push(String::from_str("Iniciando optimización...\n"));
        proof {
            assert(self@.logs =~= seq![start_banner()]);
        }
    }

    /// Ends a run: clears the running flag and appends the completion banner.
    pub fn end_run(&mut self)
        requires
            old(self).wf(),
        ensures
            final(self).wf(),
            final(self)@ == (SessionModel {
                logs: old(self)@.logs.push(done_banner()),
                running: false,
                ..old(self)@
            }),
    {
        self.running = false;
        self.append_log(String::from_str("\nOptimización completada."));
    }

    /// Appends one line to the log; nothing is dropped.
    pub fn append_log(&mut self, line: String)
        requires
            old(self).wf(),
        ensures
            final(self).wf(),
            final(self)@ == (SessionModel { logs: old(self)@.logs.push(line@), ..old(self)@ }),
    {
        self.logs.push(line);
        proof {
            assert(self@.logs =~= old(self)@.logs.push(line@));
        }
    }

    /// Runs every enabled task in list order: the log is restarted with the
    /// start banner, each enabled task is announced and then handed to
    /// `runner`, and the completion banner closes the log. Whatever the
    /// runner does, the batch goes on. Returns the indices handed to the
    /// runner, in the order of the calls.
    pub fn execute<R: CommandRunner>(&mut self, runner: &mut R) -> (invoked: Vec<usize>)
        requires
            old(self).wf(),
        ensures
            final(self).wf(),
            final(self)@ == (SessionModel {
                logs: run_log(old(self)@.tasks),
                running: false,
                ..old(self)@
            }),
            invoked@ == enabled_indices(old(self)@.tasks),
    {
        self.begin_run();
        let mut invoked: Vec<usize> = Vec::new();
        let n = self.tasks.len();
        let mut i: usize = 0;
        while i < n
            invariant
                self.wf(),
                n == self@.tasks.len(),
                i <= n,
                self@.tasks == old(self)@.tasks,
                self@.cursor == old(self)@.cursor,
                self@.running,
                self@.logs == seq![start_banner()] + announced_upto(self@.tasks, i as int),
                invoked@ == enabled_upto(self@.tasks, i as int),
            decreases n - i,
        {
            if self.tasks[i].enabled {
                let line = String::from_str("Ejecutando: ").concat(self.tasks[i].name.as_str());
                self.append_log(line);
                runner.run(&self.tasks[i].command);
                invoked.push(i);
            }
            proof {
                assert(self@.logs =~= seq![start_banner()] + announced_upto(self@.tasks, i + 1));
            }
            i = i + 1;
        }
        self.end_run();
        proof {
            assert(self@.logs =~= run_log(old(self)@.tasks));
        }
        invoked
    }
}

} // verus!
