use rust_optimizer::event_loop::{dispatch, poll_timeout, step, tick_due, LoopState};
use rust_optimizer::input::{Key, KeyEvent, KeyKind, UserCommand};
use rust_optimizer::session::{CommandRunner, SessionState, Task};

struct Counter {
    runs: usize,
}

impl CommandRunner for Counter {
    fn run(&mut self, _command: &Vec<String>) {
        self.runs += 1;
    }
}

fn session() -> SessionState {
    SessionState::new(vec![
        Task::new("A", vec!["a".to_string()], true),
        Task::new("B", vec!["b".to_string()], false),
    ])
}

fn press(key: Key) -> Option<KeyEvent> {
    Some(KeyEvent { key, kind: KeyKind::Press })
}

#[test]
fn quit_keys_terminate_in_any_state() {
    let mut c = Counter { runs: 0 };
    for key in [Key::Char('q'), Key::Esc] {
        let mut s = session();
        s.move_down();
        s.toggle_current();
        s.execute(&mut c);
        let logs_before = s.logs().clone();
        let next = step(LoopState::Running, &mut s, press(key), &mut c);
        assert_eq!(next, LoopState::Terminated);
        assert_eq!(s.cursor(), 1);
        assert_eq!(s.logs(), &logs_before);
    }
}

#[test]
fn released_quit_key_keeps_running() {
    let mut c = Counter { runs: 0 };
    let mut s = session();
    let ev = Some(KeyEvent { key: Key::Char('q'), kind: KeyKind::Release });
    assert_eq!(step(LoopState::Running, &mut s, ev, &mut c), LoopState::Running);
}

#[test]
fn step_dispatches_moves_and_run() {
    let mut c = Counter { runs: 0 };
    let mut s = session();
    assert_eq!(step(LoopState::Running, &mut s, press(Key::Down), &mut c), LoopState::Running);
    assert_eq!(s.cursor(), 1);
    assert_eq!(step(LoopState::Running, &mut s, None, &mut c), LoopState::Running);
    assert_eq!(s.cursor(), 1);
    assert_eq!(step(LoopState::Running, &mut s, press(Key::Enter), &mut c), LoopState::Running);
    assert_eq!(c.runs, 1);
    assert_eq!(s.logs().len(), 3);
}

#[test]
fn terminated_ignores_events() {
    let mut c = Counter { runs: 0 };
    let mut s = session();
    assert_eq!(step(LoopState::Terminated, &mut s, press(Key::Enter), &mut c), LoopState::Terminated);
    assert_eq!(c.runs, 0);
    assert_eq!(s.logs().len(), 1);
}

#[test]
fn dispatch_toggle_and_noop() {
    let mut c = Counter { runs: 0 };
    let mut s = session();
    assert_eq!(dispatch(&mut s, UserCommand::Toggle, &mut c), LoopState::Running);
    assert!(!s.tasks()[0].enabled);
    assert_eq!(dispatch(&mut s, UserCommand::NoOp, &mut c), LoopState::Running);
    assert_eq!(dispatch(&mut s, UserCommand::MoveUp, &mut c), LoopState::Running);
    assert_eq!(s.cursor(), 1);
    assert_eq!(dispatch(&mut s, UserCommand::Quit, &mut c), LoopState::Terminated);
}

#[test]
fn timeout_is_rest_of_tick() {
    assert_eq!(poll_timeout(200, 0), 200);
    assert_eq!(poll_timeout(200, 150), 50);
    assert_eq!(poll_timeout(200, 200), 0);
    assert_eq!(poll_timeout(200, 5000), 0);
    assert!(!tick_due(200, 199));
    assert!(tick_due(200, 200));
}
