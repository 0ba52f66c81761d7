//! The decisions of the event loop: its two states, the dispatch of a
//! command to the session, and the tick arithmetic.

use crate::input::{command_of, is_quit_key, map_key, KeyEvent, KeyKind, UserCommand};
use crate::session::{
    next_index, prev_index, run_log, toggled, CommandRunner, SessionModel, SessionState,
};
use vstd::prelude::*;

verus! {

/// The two states of the loop; it starts `Running`.
#[derive(Clone, Copy, Debug, PartialEq, Eq, Structural)]
pub enum LoopState {
    Running,
    Terminated,
}

/// The session after `cmd` has been carried out on `m`.
pub open spec fn after_command(m: SessionModel, cmd: UserCommand) -> SessionModel {
    match cmd {
        UserCommand::MoveUp => SessionModel { cursor: prev_index(m.cursor, m.tasks.len()), ..m },
        UserCommand::MoveDown => SessionModel { cursor: next_index(m.cursor, m.tasks.len()), ..m },
        UserCommand::Toggle => SessionModel { tasks: toggled(m.tasks, m.cursor), ..m },
        UserCommand::Run => SessionModel { logs: run_log(m.tasks), running: false, ..m },
        UserCommand::Quit | UserCommand::NoOp => m,
    }
}

/// The loop state after `cmd`.
pub open spec fn state_after_command(state: LoopState, cmd: UserCommand) -> LoopState {
    if cmd == UserCommand::Quit {
        LoopState::Terminated
    } else {
        state
    }
}

/// The loop state after one iteration that received `ev`, if anything.
pub open spec fn state_after_event(state: LoopState, ev: Option<KeyEvent>) -> LoopState {
    match (state, ev) {
        (LoopState::Running, Some(e)) => state_after_command(state, command_of(e)),
        _ => state,
    }
}

/// The session after one iteration of the loop in `state` that received `ev`.
pub open spec fn session_after_event(
    state: LoopState,
    m: SessionModel,
    ev: Option<KeyEvent>,
) -> SessionModel {
    match (state, ev) {
        (LoopState::Running, Some(e)) => after_command(m, command_of(e)),
        _ => m,
    }
}

/// Carries out one command on the session; a run blocks until every enabled
/// task has been handed to `runner`. Returns whether the loop goes on.
pub fn dispatch<R: CommandRunner>(
    session: &mut SessionState,
    cmd: UserCommand,
    runner: &mut R,
) -> (next: LoopState)
    requires
        old(session).wf(),
    ensures
        final(session).wf(),
        final(session)@ == after_command(old(session)@, cmd),
        next == state_after_command(LoopState::Running, cmd),
{
    match cmd {
        UserCommand::MoveUp => session.move_up(),
        UserCommand::MoveDown => session.move_down(),
        UserCommand::Toggle => session.toggle_current(),
        UserCommand::Run => {
            let _ = session.execute(runner);
        },
        UserCommand::Quit => {
            return LoopState::Terminated;
        },
        UserCommand::NoOp => {},
    }
    LoopState::Running
}

/// One iteration's decision: in `Running`, a received key event is mapped and
/// dispatched; with no event, or once `Terminated`, nothing changes.
pub fn step<R: CommandRunner>(
    state: LoopState,
    session: &mut SessionState,
    ev: Option<KeyEvent>,
    runner: &mut R,
) -> (next: LoopState)
    requires
        old(session).wf(),
    ensures
        final(session).wf(),
        final(session)@ == session_after_event(state, old(session)@, ev),
        next == state_after_event(state, ev),
{
    match state {
        LoopState::Terminated => LoopState::Terminated,
        LoopState::Running => match ev {
            Some(e) => dispatch(session, map_key(&e), runner),
            None => LoopState::Running,
        },
    }
}

/// How long to wait for input: what is left of the tick, or nothing once it
/// has elapsed.
pub fn poll_timeout(tick_ms: u64, elapsed_ms: u64) -> (r: u64)
    ensures
        r == if elapsed_ms >= tick_ms {
            0
        } else {
            (tick_ms - elapsed_ms) as u64
        },
{
    if elapsed_ms >= tick_ms {
        0
    } else {
        tick_ms - elapsed_ms
    }
}

/// Whether the tick boundary has been reached, so that its reference point
/// is reset.
pub fn tick_due(tick_ms: u64, elapsed_ms: u64) -> (r: bool)
    ensures
        r == (elapsed_ms >= tick_ms),
{
    elapsed_ms >= tick_ms
}

/// A pressed quit key ends a running loop and leaves the session as it was,
/// whatever the session holds.
pub proof fn lemma_quit_terminates(m: SessionModel, ev: KeyEvent)
    requires
        ev.kind == KeyKind::Press,
        is_quit_key(ev.key),
    ensures
        state_after_event(LoopState::Running, Some(ev)) == LoopState::Terminated,
        session_after_event(LoopState::Running, m, Some(ev)) == m,
{
}

} // verus!
