//! Key events as the session sees them, and their mapping to commands.

use vstd::prelude::*;

verus! {

/// The key that an event is about.
#[derive(Clone, Copy, Debug, PartialEq, Eq, Structural)]
pub enum Key {
    Up,
    Down,
    Enter,
    Esc,
    Char(char),
    /// Any other key.
    Other,
}

/// What happened to the key.
#[derive(Clone, Copy, Debug, PartialEq, Eq, Structural)]
pub enum KeyKind {
    Press,
    Repeat,
    Release,
}

/// One keyboard event.
#[derive(Clone, Copy, Debug, PartialEq, Eq, Structural)]
pub struct KeyEvent {
    pub key: Key,
    pub kind: KeyKind,
}

/// A command for the session.
#[derive(Clone, Copy, Debug, PartialEq, Eq, Structural)]
pub enum UserCommand {
    MoveUp,
    MoveDown,
    Toggle,
    Run,
    Quit,
    NoOp,
}

/// Whether `key` is one of the two keys that end the session.
pub open spec fn is_quit_key(key: Key) -> bool {
    key == Key::Char('q') || key == Key::Esc
}

/// The command that an event stands for: only presses count.
pub open spec fn command_of(ev: KeyEvent) -> UserCommand {
    if ev.kind != KeyKind::Press {
        UserCommand::NoOp
    } else {
        match ev.key {
            Key::Up => UserCommand::MoveUp,
            Key::Down => UserCommand::MoveDown,
            Key::Enter => UserCommand::Run,
            Key::Esc => UserCommand::Quit,
            Key::Char(c) => if c == 'q' {
                UserCommand::Quit
            } else if c == ' ' {
                UserCommand::Toggle
            } else {
                UserCommand::NoOp
            },
            Key::Other => UserCommand::NoOp,
        }
    }
}

/// Maps one key event to a command; repeats and releases map to `NoOp`.
pub fn map_key(ev: &KeyEvent) -> (c: UserCommand)
    ensures
        c == command_of(*ev),
        ev.kind != KeyKind::Press ==> c == UserCommand::NoOp,
        ev.kind == KeyKind::Press && is_quit_key(ev.key) ==> c == UserCommand::Quit,
{
    match ev.kind {
        KeyKind::Press => {},
        _ => {
            return UserCommand::NoOp;
        },
    }
    match ev.key {
        Key::Up => UserCommand::MoveUp,
        Key::Down => UserCommand::MoveDown,
        Key::Enter => UserCommand::Run,
        Key::Esc => UserCommand::Quit,
        Key::Char(c) => {
            if c == 'q' {
                UserCommand::Quit
            } else if c == ' ' {
                UserCommand::Toggle
            } else {
                UserCommand::NoOp
            }
        },
        Key::Other => UserCommand::NoOp,
    }
}

/// Any event other than a press maps to `NoOp`, whatever the key.
pub proof fn lemma_only_presses_count(ev: KeyEvent)
    requires
        ev.kind != KeyKind::Press,
    ensures
        command_of(ev) == UserCommand::NoOp,
{
}

} // verus!
