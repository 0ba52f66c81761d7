use rust_optimizer::input::{map_key, Key, KeyEvent, KeyKind, UserCommand};

fn press(key: Key) -> KeyEvent {
    KeyEvent { key, kind: KeyKind::Press }
}

#[test]
fn pressed_keys_map_to_commands() {
    assert_eq!(map_key(&press(Key::Up)), UserCommand::MoveUp);
    assert_eq!(map_key(&press(Key::Down)), UserCommand::MoveDown);
    assert_eq!(map_key(&press(Key::Char(' '))), UserCommand::Toggle);
    assert_eq!(map_key(&press(Key::Enter)), UserCommand::Run);
    assert_eq!(map_key(&press(Key::Char('q'))), UserCommand::Quit);
    assert_eq!(map_key(&press(Key::Esc)), UserCommand::Quit);
}

#[test]
fn unmapped_keys_are_noop() {
    assert_eq!(map_key(&press(Key::Char('x'))), UserCommand::NoOp);
    assert_eq!(map_key(&press(Key::Char('Q'))), UserCommand::NoOp);
    assert_eq!(map_key(&press(Key::Other)), UserCommand::NoOp);
}

#[test]
fn release_and_repeat_are_noop() {
    for key in [Key::Up, Key::Down, Key::Enter, Key::Esc, Key::Char('q'), Key::Char(' ')] {
        assert_eq!(map_key(&KeyEvent { key, kind: KeyKind::Release }), UserCommand::NoOp);
        assert_eq!(map_key(&KeyEvent { key, kind: KeyKind::Repeat }), UserCommand::NoOp);
    }
}
