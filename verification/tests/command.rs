use systemctl_manager::command::{
    Command, Edit, Event, KeyCode, KeyEvent, KeyEventKind, Move, System, MODIFIER_CONTROL, MODIFIER_NONE,
    MODIFIER_SHIFT,
};
use systemctl_manager::geometry::{Position, Size};

fn key(code: KeyCode, modifiers: u8) -> KeyEvent {
    KeyEvent { code, modifiers, kind: KeyEventKind::Press }
}

#[test]
fn characters_are_inserted_with_no_modifier_or_with_shift() {
    assert_eq!(Edit::try_from(key(KeyCode::Char('a'), MODIFIER_NONE)), Some(Edit::Insert('a')));
    assert_eq!(Edit::try_from(key(KeyCode::Char('A'), MODIFIER_SHIFT)), Some(Edit::Insert('A')));
    assert_eq!(Edit::try_from(key(KeyCode::Char('a'), MODIFIER_CONTROL)), None);
    assert_eq!(Edit::try_from(key(KeyCode::Char('a'), MODIFIER_SHIFT | MODIFIER_CONTROL)), None);
}

#[test]
fn editing_keys_count_with_no_modifier() {
    assert_eq!(Edit::try_from(key(KeyCode::Tab, MODIFIER_NONE)), Some(Edit::Insert('\t')));
    assert_eq!(Edit::try_from(key(KeyCode::Enter, MODIFIER_NONE)), Some(Edit::InsertNewLine));
    assert_eq!(Edit::try_from(key(KeyCode::Backspace, MODIFIER_NONE)), Some(Edit::DeleteBackward));
    assert_eq!(Edit::try_from(key(KeyCode::Delete, MODIFIER_NONE)), Some(Edit::Delete));
    assert_eq!(Edit::try_from(key(KeyCode::Enter, MODIFIER_SHIFT)), None);
    assert_eq!(Edit::try_from(key(KeyCode::Up, MODIFIER_NONE)), None);
    assert_eq!(Edit::try_from(key(KeyCode::Other, MODIFIER_NONE)), None);
}

#[test]
fn move_keys_count_with_no_modifier() {
    assert_eq!(Move::try_from(key(KeyCode::Up, MODIFIER_NONE)), Some(Move::Up));
    assert_eq!(Move::try_from(key(KeyCode::Down, MODIFIER_NONE)), Some(Move::Down));
    assert_eq!(Move::try_from(key(KeyCode::PageUp, MODIFIER_NONE)), Some(Move::PageUp));
    assert_eq!(Move::try_from(key(KeyCode::PageDown, MODIFIER_NONE)), Some(Move::PageDown));
    assert_eq!(Move::try_from(key(KeyCode::Char('j'), MODIFIER_NONE)), Some(Move::Down));
    assert_eq!(Move::try_from(key(KeyCode::Char('k'), MODIFIER_NONE)), Some(Move::Up));
    assert_eq!(Move::try_from(key(KeyCode::Char('l'), MODIFIER_NONE)), None);
    assert_eq!(Move::try_from(key(KeyCode::Up, MODIFIER_SHIFT)), None);
    assert_eq!(Move::try_from(key(KeyCode::Esc, MODIFIER_NONE)), None);
}

#[test]
fn system_keys_are_control_letters_and_escape() {
    assert_eq!(System::try_from(key(KeyCode::Char('s'), MODIFIER_CONTROL)), Some(System::Save));
    assert_eq!(System::try_from(key(KeyCode::Char('q'), MODIFIER_CONTROL)), Some(System::Quit));
    assert_eq!(System::try_from(key(KeyCode::Char('f'), MODIFIER_CONTROL)), Some(System::Search));
    assert_eq!(System::try_from(key(KeyCode::Char('c'), MODIFIER_CONTROL)), Some(System::Dismiss));
    assert_eq!(System::try_from(key(KeyCode::Esc, MODIFIER_NONE)), Some(System::Dismiss));
    assert_eq!(System::try_from(key(KeyCode::Char('x'), MODIFIER_CONTROL)), None);
    assert_eq!(System::try_from(key(KeyCode::Esc, MODIFIER_CONTROL)), None);
    assert_eq!(System::try_from(key(KeyCode::Char('q'), MODIFIER_NONE)), None);
}

#[test]
fn a_key_is_read_as_an_edit_first() {
    assert_eq!(
        Command::try_from(Event::Key(key(KeyCode::Char('j'), MODIFIER_NONE))),
        Some(Command::Edit(Edit::Insert('j')))
    );
    assert_eq!(
        Command::try_from(Event::Key(key(KeyCode::Down, MODIFIER_NONE))),
        Some(Command::Move(Move::Down))
    );
    assert_eq!(
        Command::try_from(Event::Key(key(KeyCode::Char('q'), MODIFIER_CONTROL))),
        Some(Command::System(System::Quit))
    );
    assert_eq!(Command::try_from(Event::Key(key(KeyCode::Other, MODIFIER_NONE))), None);
    assert_eq!(Command::try_from(Event::Key(key(KeyCode::Up, MODIFIER_CONTROL))), None);
    assert_eq!(Command::try_from(Event::Other), None);
}

#[test]
fn a_new_size_is_a_resize_command() {
    assert_eq!(
        Command::try_from(Event::Resize(80, 24)),
        Some(Command::System(System::Resize(Size { height: 24, width: 80 })))
    );
}

#[test]
fn position_saturating_sub_stops_at_zero() {
    let a = Position { col: 5, row: 2 };
    let b = Position { col: 3, row: 7 };
    assert_eq!(a.saturating_sub(b), Position { col: 2, row: 0 });
    assert_eq!(b.saturating_sub(a), Position { col: 0, row: 5 });
    assert_eq!(a.saturating_sub(a), Position { col: 0, row: 0 });
}
