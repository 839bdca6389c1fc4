use systemctl_manager::annotation::{Annotation, AnnotationType};
use systemctl_manager::command::Move;
use systemctl_manager::geometry::Size;
use systemctl_manager::render::DrawCommand;
use systemctl_manager::tuistatus::{Mode, TuiStatus};
use systemctl_manager::uicomponent::UIComponent;
use systemctl_manager::view::View;

fn numbered(count: usize) -> Vec<String> {
    (0..count).map(|i| format!("unit{}.service loaded", i)).collect()
}

fn view_of(count: usize, height: usize) -> View {
    let mut v = View::new();
    v.resize(Size { height, width: 0 });
    v.load(&numbered(count));
    v
}

fn shows_location(v: &View, height: usize) -> bool {
    v.scroll_offset() <= v.location() && v.location() < v.scroll_offset() + height
}

#[test]
fn a_new_view_is_empty_and_stands_at_the_start() {
    let v = View::new();
    assert_eq!(v.location(), 0);
    assert_eq!(v.scroll_offset(), 0);
    assert_eq!(v.height(), 0);
    assert!(!v.needs_redraw());
    assert_eq!(v.get_selected_service_name(), None);
}

#[test]
fn down_scrolls_when_the_selection_leaves_the_window() {
    let mut v = view_of(10, 3);
    for _ in 0..5 {
        v.handle_move_command(Move::Down, None);
    }
    assert_eq!(v.location(), 5);
    assert_eq!(v.scroll_offset(), 3);
    v.handle_move_command(Move::Down, None);
    assert_eq!(v.location(), 6);
    assert_eq!(v.scroll_offset(), 4);
}

#[test]
fn down_from_the_last_row_of_the_window_scrolls_by_one() {
    let mut v = view_of(10, 6);
    v.handle_move_command(Move::Down, Some(5));
    assert_eq!(v.location(), 5);
    assert_eq!(v.scroll_offset(), 0);
    v.handle_move_command(Move::Down, None);
    assert_eq!(v.location(), 6);
    assert_eq!(v.scroll_offset(), 1);
}

#[test]
fn up_scrolls_back_to_the_selection() {
    let mut v = view_of(10, 3);
    v.handle_move_command(Move::Down, Some(9));
    assert_eq!((v.location(), v.scroll_offset()), (9, 7));
    v.handle_move_command(Move::Up, Some(2));
    assert_eq!((v.location(), v.scroll_offset()), (7, 7));
    v.handle_move_command(Move::Up, None);
    assert_eq!((v.location(), v.scroll_offset()), (6, 6));
}

#[test]
fn moves_stop_at_the_first_and_at_the_last_line() {
    let mut v = view_of(4, 3);
    v.handle_move_command(Move::Up, None);
    assert_eq!(v.location(), 0);
    v.handle_move_command(Move::Down, Some(100));
    assert_eq!(v.location(), 3);
    v.handle_move_command(Move::Down, Some(usize::MAX));
    assert_eq!(v.location(), 3);
    v.handle_move_command(Move::PageDown, Some(usize::MAX));
    assert_eq!(v.location(), 3);
    v.handle_move_command(Move::Up, Some(usize::MAX));
    assert_eq!(v.location(), 0);
}

#[test]
fn page_moves_go_one_page_less_a_line() {
    let mut v = view_of(30, 5);
    v.handle_move_command(Move::PageDown, None);
    assert_eq!((v.location(), v.scroll_offset()), (4, 0));
    v.handle_move_command(Move::PageDown, None);
    assert_eq!((v.location(), v.scroll_offset()), (8, 4));
    v.handle_move_command(Move::PageDown, Some(3));
    assert_eq!((v.location(), v.scroll_offset()), (20, 16));
    v.handle_move_command(Move::PageUp, Some(2));
    assert_eq!((v.location(), v.scroll_offset()), (12, 12));
    v.handle_move_command(Move::PageUp, None);
    assert_eq!((v.location(), v.scroll_offset()), (8, 8));
}

#[test]
fn a_multiplier_of_zero_moves_nothing() {
    let mut v = view_of(10, 3);
    v.handle_move_command(Move::Down, Some(4));
    v.handle_move_command(Move::Down, Some(0));
    assert_eq!(v.location(), 4);
    v.handle_move_command(Move::Up, Some(0));
    assert_eq!(v.location(), 4);
}

#[test]
fn moves_on_an_empty_collection_stay_at_zero() {
    let mut v = view_of(0, 3);
    for m in [Move::Down, Move::PageDown, Move::Up, Move::PageUp] {
        v.handle_move_command(m, Some(7));
        assert_eq!(v.location(), 0);
        assert_eq!(v.scroll_offset(), 0);
    }
    v.search_next();
    v.search_prev();
    assert_eq!(v.location(), 0);
    assert_eq!(v.get_selected_service_name(), None);
}

#[test]
fn the_window_shows_the_selection_after_every_move_and_resize() {
    let mut v = view_of(40, 7);
    let moves = [
        (Move::Down, Some(12)),
        (Move::PageDown, None),
        (Move::Up, Some(3)),
        (Move::PageUp, Some(2)),
        (Move::Down, Some(100)),
        (Move::Up, None),
        (Move::PageUp, Some(50)),
        (Move::Down, Some(20)),
    ];
    let mut height = 7;
    for (i, (m, mult)) in moves.iter().enumerate() {
        v.handle_move_command(*m, *mult);
        assert!(shows_location(&v, height));
        assert!(v.location() < 40);
        height = 1 + (i * 5) % 9;
        v.resize(Size { height, width: 10 });
        assert!(shows_location(&v, height));
        assert!(v.location() < 40);
    }
}

#[test]
fn resize_to_a_smaller_window_scrolls_to_the_selection() {
    let mut v = view_of(20, 10);
    v.handle_move_command(Move::Down, Some(8));
    assert_eq!((v.location(), v.scroll_offset()), (8, 0));
    v.resize(Size { height: 3, width: 0 });
    assert_eq!((v.location(), v.scroll_offset()), (8, 6));
    assert!(v.needs_redraw());
}

#[test]
fn scroll_to_start_selects_the_first_line() {
    let mut v = view_of(20, 4);
    v.handle_move_command(Move::Down, Some(15));
    v.scroll_to_start();
    assert_eq!((v.location(), v.scroll_offset()), (0, 0));
}

#[test]
fn get_status_reports_the_lines_and_the_selection() {
    let mut v = view_of(6, 4);
    v.handle_move_command(Move::Down, Some(2));
    assert_eq!(
        v.get_status(Mode::Search),
        TuiStatus { mode: Mode::Search, total_lines: 6, current_line_idx: 2 }
    );
}

#[test]
fn get_selected_service_name_is_the_name_of_the_selected_item() {
    let mut v = view_of(6, 4);
    v.handle_move_command(Move::Down, Some(3));
    assert_eq!(v.get_selected_service_name(), Some(String::from("unit3.service")));
}

#[test]
fn filter_narrows_the_collection_and_keeps_the_selection_inside() {
    let mut v = View::new();
    v.resize(Size { height: 5, width: 0 });
    v.load(&vec![
        String::from("alpha.service"),
        String::from("beta.service"),
        String::from("alphabet.service"),
    ]);
    v.handle_move_command(Move::Down, Some(2));
    assert_eq!(v.location(), 2);
    v.filter("alpha");
    assert_eq!(v.height(), 2);
    assert_eq!(v.location(), 1);
    assert_eq!(v.get_selected_service_name(), Some(String::from("alphabet.service")));
    v.filter("zz");
    assert_eq!(v.height(), 0);
    assert_eq!(v.location(), 0);
    v.filter("");
    assert_eq!(v.height(), 3);
}

#[test]
fn search_jumps_to_the_first_line_that_holds_the_query_and_centres_it() {
    let mut v = view_of(30, 6);
    v.enter_search();
    v.search("unit2");
    assert_eq!(v.location(), 2);
    assert_eq!(v.scroll_offset(), 0);
    v.search("unit25");
    assert_eq!(v.location(), 25);
    assert_eq!(v.scroll_offset(), 22);
    v.search("nothing");
    assert_eq!(v.location(), 25);
}

#[test]
fn search_next_and_prev_go_round_the_collection() {
    let mut v = view_of(30, 6);
    v.enter_search();
    v.search("unit2");
    assert_eq!(v.location(), 2);
    v.search_next();
    assert_eq!(v.location(), 20);
    v.search_next();
    assert_eq!(v.location(), 21);
    v.search_prev();
    assert_eq!(v.location(), 20);
    v.search_prev();
    assert_eq!(v.location(), 2);
    v.search_prev();
    assert_eq!(v.location(), 29);
    v.search_next();
    assert_eq!(v.location(), 2);
}

#[test]
fn search_without_a_session_finds_nothing() {
    let mut v = view_of(30, 6);
    v.search("unit2");
    assert_eq!(v.location(), 0);
    v.search_next();
    assert_eq!(v.location(), 0);
}

#[test]
fn dismiss_search_goes_back_to_where_the_search_began() {
    let mut v = view_of(30, 6);
    v.handle_move_command(Move::Down, Some(9));
    assert_eq!((v.location(), v.scroll_offset()), (9, 4));
    v.enter_search();
    v.search("unit27");
    assert_eq!((v.location(), v.scroll_offset()), (27, 24));
    v.dismiss_search();
    assert_eq!((v.location(), v.scroll_offset()), (9, 4));
    v.search_next();
    assert_eq!(v.location(), 9);
}

#[test]
fn exit_search_keeps_the_position_and_the_query() {
    let mut v = view_of(30, 6);
    v.enter_search();
    v.search("unit1");
    assert_eq!(v.location(), 1);
    v.search_next();
    assert_eq!(v.location(), 10);
    v.exit_search();
    assert_eq!((v.location(), v.scroll_offset()), (10, 7));
    v.search_next();
    assert_eq!(v.location(), 11);
    v.dismiss_search();
    assert_eq!(v.location(), 10);
}

#[test]
fn render_draws_once_until_something_changes() {
    let mut v = view_of(2, 3);
    assert!(v.needs_redraw());
    assert_eq!(v.render(1).len(), 3);
    assert!(!v.needs_redraw());
    assert!(v.render(1).is_empty());
    v.handle_move_command(Move::Down, None);
    assert_eq!(v.render(1).len(), 3);
}

#[test]
fn draw_shows_the_lines_from_the_scroll_offset_on() {
    let mut v = view_of(3, 2);
    v.set_hilight_selected_line(true);
    v.handle_move_command(Move::Down, Some(2));
    assert_eq!(v.scroll_offset(), 1);
    v.enter_search();
    v.search("unit");
    assert_eq!(v.location(), 2);
    assert_eq!(v.scroll_offset(), 1);
    let frame = v.draw(4);
    assert_eq!(frame.len(), 2);
    match &frame[0] {
        DrawCommand::PrintAnnotatedRow { row, text } => {
            assert_eq!(*row, 4);
            assert_eq!(text.as_bytes(), b"unit1.service loaded");
            assert_eq!(
                text.annotations(),
                &vec![Annotation { annotation_type: AnnotationType::Match, start: 0, end: 4 }]
            );
        }
        other => panic!("{:?}", other),
    }
    match &frame[1] {
        DrawCommand::PrintAnnotatedRow { row, text } => {
            assert_eq!(*row, 5);
            assert_eq!(text.as_bytes(), b"unit2.service loaded");
            assert_eq!(
                text.annotations(),
                &vec![
                    Annotation { annotation_type: AnnotationType::SelectedMatch, start: 0, end: 4 },
                    Annotation { annotation_type: AnnotationType::Selected, start: 4, end: 20 },
                ]
            );
        }
        other => panic!("{:?}", other),
    }
}

#[test]
fn draw_shows_a_tilde_on_rows_behind_the_last_line() {
    let mut v = view_of(1, 3);
    let frame = v.draw(0);
    assert_eq!(frame.len(), 3);
    assert!(matches!(&frame[0], DrawCommand::PrintAnnotatedRow { row: 0, .. }));
    match &frame[1] {
        DrawCommand::PrintRow { row, text } => {
            assert_eq!(*row, 1);
            assert_eq!(text, "~");
        }
        other => panic!("{:?}", other),
    }
    assert!(matches!(&frame[2], DrawCommand::PrintRow { row: 2, .. }));
}

#[test]
fn draw_stops_at_the_last_row_that_can_be_counted() {
    let mut v = view_of(1, 5);
    assert_eq!(v.draw(usize::MAX - 2).len(), 2);
    assert!(v.draw(usize::MAX).is_empty());
}

#[test]
fn load_pads_the_lines_to_the_width_of_the_window() {
    let mut v = View::new();
    v.resize(Size { height: 2, width: 12 });
    v.load(&vec![String::from("a.service")]);
    let frame = v.draw(0);
    match &frame[0] {
        DrawCommand::PrintAnnotatedRow { text, .. } => assert_eq!(text.as_bytes(), b"a.service   "),
        other => panic!("{:?}", other),
    }
}
