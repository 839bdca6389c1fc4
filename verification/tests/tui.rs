use systemctl_manager::command::{
    Command, Edit, Event, KeyCode, KeyEvent, KeyEventKind, Move, System, MODIFIER_CONTROL, MODIFIER_NONE,
};
use systemctl_manager::geometry::{Position, Size};
use systemctl_manager::operation::OperationType;
use systemctl_manager::render::DrawCommand;
use systemctl_manager::tui::Tui;
use systemctl_manager::tuistatus::Mode;

fn numbered(count: usize) -> Vec<String> {
    (0..count).map(|i| format!("unit{}.service loaded", i)).collect()
}

fn tui_of(count: usize) -> Tui {
    Tui::new(Size { height: 13, width: 40 }, &numbered(count))
}

fn insert(tui: &mut Tui, text: &str) {
    for ch in text.chars() {
        tui.process_command(Command::Edit(Edit::Insert(ch)));
    }
}

fn location(tui: &Tui) -> usize {
    tui.viewport().location()
}

#[test]
fn a_new_session_is_in_normal_mode_at_the_first_line() {
    let tui = tui_of(5);
    assert_eq!(tui.mode(), Mode::Normal);
    assert!(!tui.should_quit());
    assert!(tui.operation().is_none());
    assert_eq!(tui.get_multiplier(), None);
    assert_eq!(location(&tui), 0);
    assert_eq!(tui.viewport().height(), 5);
}

#[test]
fn a_multiplier_scales_the_next_move_and_is_then_unset() {
    let mut tui = tui_of(40);
    insert(&mut tui, "12");
    assert_eq!(tui.get_multiplier(), Some(12));
    tui.process_command(Command::Move(Move::Down));
    assert_eq!(location(&tui), 12);
    assert_eq!(tui.get_multiplier(), None);
    tui.process_command(Command::Move(Move::Down));
    assert_eq!(location(&tui), 13);
}

#[test]
fn the_letters_j_and_k_move_with_the_multiplier() {
    let mut tui = tui_of(40);
    insert(&mut tui, "7j");
    assert_eq!(location(&tui), 7);
    insert(&mut tui, "03k");
    assert_eq!(location(&tui), 4);
    insert(&mut tui, "k");
    assert_eq!(location(&tui), 3);
    assert_eq!(tui.get_multiplier(), None);
}

#[test]
fn a_command_that_does_not_move_unsets_the_multiplier() {
    let mut tui = tui_of(40);
    insert(&mut tui, "5");
    assert_eq!(tui.get_multiplier(), Some(5));
    insert(&mut tui, "x");
    assert_eq!(tui.get_multiplier(), None);
    insert(&mut tui, "j");
    assert_eq!(location(&tui), 1);
}

#[test]
fn a_multiplier_that_does_not_fit_counts_as_none() {
    let mut tui = tui_of(40);
    insert(&mut tui, "99999999999999999999999999");
    assert_eq!(tui.get_multiplier(), None);
    insert(&mut tui, "j");
    assert_eq!(location(&tui), 1);
}

#[test]
fn page_moves_go_by_the_height_of_the_viewport() {
    let mut tui = tui_of(40);
    tui.process_command(Command::Move(Move::PageDown));
    assert_eq!(location(&tui), 9);
    insert(&mut tui, "2");
    tui.process_command(Command::Move(Move::PageDown));
    assert_eq!(location(&tui), 27);
    tui.process_command(Command::Move(Move::PageUp));
    assert_eq!(location(&tui), 18);
}

#[test]
fn quit_ends_the_program_without_an_operation() {
    let mut tui = tui_of(3);
    tui.process_command(Command::System(System::Quit));
    assert!(tui.should_quit());
    assert!(tui.operation().is_none());
}

#[test]
fn quit_is_a_normal_mode_command() {
    let mut tui = tui_of(3);
    insert(&mut tui, "i");
    tui.process_command(Command::System(System::Quit));
    assert!(!tui.should_quit());
    assert_eq!(tui.mode(), Mode::Filter);
}

#[test]
fn the_operation_keys_ask_for_an_action_on_the_selected_item() {
    let keys = [
        ('w', OperationType::Start),
        ('e', OperationType::Stop),
        ('r', OperationType::Reload),
        ('t', OperationType::Restart),
        ('y', OperationType::Enable),
        ('u', OperationType::Disable),
    ];
    for (ch, kind) in keys {
        let mut tui = tui_of(5);
        insert(&mut tui, "2j");
        tui.process_command(Command::Edit(Edit::Insert(ch)));
        assert!(tui.should_quit());
        let operation = tui.operation().unwrap();
        assert_eq!(operation.operation_type, kind);
        assert_eq!(operation.name, "unit2.service");
    }
}

#[test]
fn an_operation_on_an_empty_collection_only_ends_the_program() {
    let mut tui = tui_of(0);
    insert(&mut tui, "w");
    assert!(tui.should_quit());
    assert!(tui.operation().is_none());
}

#[test]
fn filter_mode_narrows_the_collection_as_the_filter_is_typed() {
    let mut tui = Tui::new(
        Size { height: 10, width: 0 },
        &vec![String::from("alpha.service"), String::from("beta.service"), String::from("alphabet.service")],
    );
    insert(&mut tui, "2j");
    insert(&mut tui, "i");
    assert_eq!(tui.mode(), Mode::Filter);
    assert_eq!(location(&tui), 0);
    insert(&mut tui, "alpha");
    assert_eq!(tui.viewport().height(), 2);
    insert(&mut tui, "b");
    assert_eq!(tui.viewport().height(), 1);
    assert_eq!(tui.viewport().get_selected_service_name(), Some(String::from("alphabet.service")));
    tui.process_command(Command::Edit(Edit::DeleteBackward));
    assert_eq!(tui.viewport().height(), 2);
    tui.process_command(Command::Move(Move::Down));
    assert_eq!(location(&tui), 0);
    tui.process_command(Command::Edit(Edit::InsertNewLine));
    assert_eq!(tui.mode(), Mode::Normal);
    assert_eq!(tui.viewport().height(), 2);
    insert(&mut tui, "j");
    assert_eq!(tui.viewport().get_selected_service_name(), Some(String::from("alphabet.service")));
}

#[test]
fn every_filter_key_enters_filter_mode_and_dismiss_leaves_it() {
    for ch in ['i', 'I', 'a', 'A'] {
        let mut tui = tui_of(5);
        insert(&mut tui, "3j");
        tui.process_command(Command::Edit(Edit::Insert(ch)));
        assert_eq!(tui.mode(), Mode::Filter);
        assert_eq!(location(&tui), 0);
        tui.process_command(Command::System(System::Dismiss));
        assert_eq!(tui.mode(), Mode::Normal);
        assert_eq!(tui.viewport().height(), 5);
    }
}

#[test]
fn digits_in_filter_mode_go_to_the_filter() {
    let mut tui = tui_of(30);
    insert(&mut tui, "i");
    insert(&mut tui, "unit2");
    assert_eq!(tui.get_multiplier(), None);
    assert_eq!(tui.viewport().height(), 11);
}

#[test]
fn search_mode_jumps_as_the_query_is_typed() {
    let mut tui = tui_of(30);
    insert(&mut tui, "4j");
    insert(&mut tui, "/");
    assert_eq!(tui.mode(), Mode::Search);
    insert(&mut tui, "unit2");
    assert_eq!(location(&tui), 20);
    insert(&mut tui, "7");
    assert_eq!(location(&tui), 27);
    tui.process_command(Command::Edit(Edit::DeleteBackward));
    assert_eq!(location(&tui), 27);
    tui.process_command(Command::Move(Move::Down));
    assert_eq!(location(&tui), 28);
    tui.process_command(Command::Move(Move::Up));
    assert_eq!(location(&tui), 27);
    tui.process_command(Command::Move(Move::PageDown));
    assert_eq!(location(&tui), 27);
}

#[test]
fn dismissing_a_search_restores_the_position() {
    let mut tui = tui_of(30);
    insert(&mut tui, "4j");
    insert(&mut tui, "/");
    insert(&mut tui, "unit29");
    assert_eq!(location(&tui), 29);
    tui.process_command(Command::System(System::Dismiss));
    assert_eq!(tui.mode(), Mode::Normal);
    assert_eq!(location(&tui), 4);
    assert_eq!(tui.viewport().scroll_offset(), 0);
    insert(&mut tui, "n");
    assert_eq!(location(&tui), 4);
}

#[test]
fn confirming_a_search_keeps_the_position() {
    let mut tui = tui_of(30);
    insert(&mut tui, "/");
    insert(&mut tui, "unit1");
    assert_eq!(location(&tui), 1);
    tui.process_command(Command::Edit(Edit::InsertNewLine));
    assert_eq!(tui.mode(), Mode::Normal);
    assert_eq!(location(&tui), 1);
    insert(&mut tui, "n");
    assert_eq!(location(&tui), 10);
    insert(&mut tui, "n");
    assert_eq!(location(&tui), 11);
    insert(&mut tui, "N");
    assert_eq!(location(&tui), 10);
}

#[test]
fn a_resize_is_taken_in_every_mode() {
    for enter in ["", "i", "/"] {
        let mut tui = tui_of(40);
        insert(&mut tui, enter);
        let mode = tui.mode();
        tui.process_command(Command::System(System::Resize(Size { height: 8, width: 30 })));
        assert_eq!(tui.mode(), mode);
        if mode == Mode::Normal {
            tui.process_command(Command::Move(Move::PageDown));
            assert_eq!(location(&tui), 4);
        }
    }
}

#[test]
fn only_pressed_keys_and_resizes_are_evaluated() {
    let mut tui = tui_of(10);
    let down = |kind| Event::Key(KeyEvent { code: KeyCode::Down, modifiers: MODIFIER_NONE, kind });
    tui.evaluate_event(down(KeyEventKind::Release));
    tui.evaluate_event(down(KeyEventKind::Repeat));
    assert_eq!(location(&tui), 0);
    tui.evaluate_event(down(KeyEventKind::Press));
    assert_eq!(location(&tui), 1);
    tui.evaluate_event(Event::Other);
    tui.evaluate_event(Event::Key(KeyEvent {
        code: KeyCode::Other,
        modifiers: MODIFIER_NONE,
        kind: KeyEventKind::Press,
    }));
    assert_eq!(location(&tui), 1);
    tui.evaluate_event(Event::Resize(20, 5));
    tui.evaluate_event(Event::Key(KeyEvent {
        code: KeyCode::PageDown,
        modifiers: MODIFIER_NONE,
        kind: KeyEventKind::Press,
    }));
    assert_eq!(location(&tui), 2);
    tui.evaluate_event(Event::Key(KeyEvent {
        code: KeyCode::Char('q'),
        modifiers: MODIFIER_CONTROL,
        kind: KeyEventKind::Press,
    }));
    assert!(tui.should_quit());
}

#[test]
fn the_first_frame_draws_every_part() {
    let mut tui = Tui::new(Size { height: 6, width: 70 }, &numbered(2));
    let frame = tui.refresh_screen_when(false);
    assert_eq!(frame.len(), 8);
    assert!(matches!(&frame[0], DrawCommand::HideCaret));
    match &frame[1] {
        DrawCommand::PrintRow { row, text } => {
            assert_eq!(*row, 0);
            assert_eq!(text, "> ");
        }
        other => panic!("{:?}", other),
    }
    match &frame[2] {
        DrawCommand::PrintInvertedRow { row, text } => {
            assert_eq!(*row, 4);
            assert_eq!(text.len(), 70);
            assert!(text.starts_with("NORMAL "));
            assert!(text.ends_with(" 1/2"));
        }
        other => panic!("{:?}", other),
    }
    match &frame[3] {
        DrawCommand::PrintRow { row, text } => {
            assert_eq!(*row, 5);
            assert!(text.starts_with("alternate loaded/all: f"));
        }
        other => panic!("{:?}", other),
    }
    assert!(matches!(&frame[4], DrawCommand::PrintAnnotatedRow { row: 1, .. }));
    assert!(matches!(&frame[5], DrawCommand::PrintAnnotatedRow { row: 2, .. }));
    assert!(matches!(&frame[6], DrawCommand::PrintRow { row: 3, .. }));
    assert!(matches!(&frame[7], DrawCommand::Flush));
}

#[test]
fn a_frame_without_changes_only_hides_the_caret_and_flushes() {
    let mut tui = Tui::new(Size { height: 6, width: 70 }, &numbered(2));
    let _ = tui.refresh_screen_when(false);
    let frame = tui.refresh_screen_when(false);
    assert_eq!(frame.len(), 2);
    assert!(matches!(&frame[0], DrawCommand::HideCaret));
    assert!(matches!(&frame[1], DrawCommand::Flush));
}

#[test]
fn nothing_is_drawn_on_an_empty_screen() {
    let mut flat = Tui::new(Size { height: 0, width: 70 }, &numbered(2));
    assert!(flat.refresh_screen_when(false).is_empty());
    let mut thin = Tui::new(Size { height: 6, width: 0 }, &numbered(2));
    assert!(thin.refresh_screen_when(true).is_empty());
    assert!(thin.refresh_screen().is_empty());
}

#[test]
fn a_low_screen_draws_the_parts_it_has_rows_for() {
    let mut one = Tui::new(Size { height: 1, width: 70 }, &numbered(2));
    assert_eq!(one.refresh_screen_when(false).len(), 3);
    let mut two = Tui::new(Size { height: 2, width: 70 }, &numbered(2));
    assert_eq!(two.refresh_screen_when(false).len(), 4);
    let mut three = Tui::new(Size { height: 3, width: 70 }, &numbered(2));
    assert_eq!(three.refresh_screen_when(false).len(), 5);
    let mut four = Tui::new(Size { height: 4, width: 70 }, &numbered(2));
    assert_eq!(four.refresh_screen_when(false).len(), 6);
}

#[test]
fn the_caret_is_shown_in_the_bar_in_which_text_is_entered() {
    let mut tui = Tui::new(Size { height: 6, width: 70 }, &numbered(2));
    insert(&mut tui, "i");
    insert(&mut tui, "un");
    let frame = tui.refresh_screen_when(false);
    let n = frame.len();
    assert!(matches!(&frame[n - 3], DrawCommand::MoveCaretTo(Position { col: 4, row: 0 })));
    assert!(matches!(&frame[n - 2], DrawCommand::ShowCaret));
    assert!(matches!(&frame[n - 1], DrawCommand::Flush));
    tui.process_command(Command::System(System::Dismiss));
    insert(&mut tui, "/");
    insert(&mut tui, "unit");
    let frame = tui.refresh_screen_when(false);
    let n = frame.len();
    assert!(matches!(&frame[n - 3], DrawCommand::MoveCaretTo(Position { col: 5, row: 5 })));
    assert!(matches!(&frame[n - 2], DrawCommand::ShowCaret));
    assert!(frame.iter().any(|c| match c {
        DrawCommand::PrintRow { row: 5, text } => text == "/unit",
        _ => false,
    }));
}

#[test]
fn the_message_bar_shows_the_multiplier_and_the_help() {
    let mut tui = Tui::new(Size { height: 6, width: 70 }, &numbered(2));
    let _ = tui.refresh_screen_when(false);
    insert(&mut tui, "12");
    let frame = tui.refresh_screen_when(false);
    assert!(frame.iter().any(|c| match c {
        DrawCommand::PrintRow { row: 5, text } => text == "12",
        _ => false,
    }));
    insert(&mut tui, "z");
    let frame = tui.refresh_screen_when(false);
    assert!(frame.iter().any(|c| match c {
        DrawCommand::PrintRow { row: 5, text } => text.starts_with("Filter mode: i/a/I/A | Search mode: /"),
        _ => false,
    }));
}

#[test]
fn the_status_bar_follows_the_selection_after_a_refresh_of_the_status() {
    let mut tui = Tui::new(Size { height: 6, width: 20 }, &numbered(9));
    let _ = tui.refresh_screen_when(false);
    insert(&mut tui, "4j");
    tui.refresh_status();
    let frame = tui.refresh_screen_when(false);
    assert!(frame.iter().any(|c| match c {
        DrawCommand::PrintInvertedRow { row: 4, text } => text == "NORMAL           5/9",
        _ => false,
    }));
}
