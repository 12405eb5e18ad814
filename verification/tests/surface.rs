use term_surface::command::Command;
use term_surface::terminal::{Position, Size, Terminal};

#[test]
fn move_caret_is_tracked_by_the_double() {
    let mut t = Terminal::mock(80, 24);
    t.move_caret_to(Position { col: 3, row: 4 }).unwrap();
    assert_eq!(t.pending(), &vec![Command::MoveTo(3, 4)]);
    t.execute().unwrap();
    assert_eq!(t.host().requested_col, 3);
    assert_eq!(t.host().requested_row, 4);
    assert_eq!(t.pending().len(), 0);
}

#[test]
fn move_caret_at_the_range_top() {
    let mut t = Terminal::mock(80, 24);
    t.move_caret_to(Position { col: 65534, row: 65534 }).unwrap();
    t.execute().unwrap();
    assert_eq!(t.host().requested_col, 65534);
    assert_eq!(t.host().requested_row, 65534);
}

#[test]
fn initialize_then_terminate_restores_the_mode() {
    let mut t = Terminal::mock(80, 24);
    let cooked_before = t.host().raw;
    assert!(!cooked_before);
    t.initialize().unwrap();
    assert!(t.host().raw);
    assert!(t.host().alternate);
    t.terminate().unwrap();
    assert_eq!(t.host().raw, cooked_before);
    assert!(!t.host().alternate);
    assert!(t.host().caret_visible);
}

#[test]
fn print_row_equals_the_composition() {
    let mut composite = Terminal::mock(80, 24);
    composite.print_row(5, "X").unwrap();

    let mut manual = Terminal::mock(80, 24);
    manual.move_caret_to(Position { col: 0, row: 5 }).unwrap();
    manual.clear_line().unwrap();
    manual.print("X").unwrap();

    assert_eq!(composite.pending(), manual.pending());
    composite.execute().unwrap();
    manual.execute().unwrap();
    assert_eq!(composite.host().received, manual.host().received);
    assert_eq!(composite.host().requested_col, manual.host().requested_col);
    assert_eq!(composite.host().requested_row, manual.host().requested_row);
}

#[test]
fn terminate_without_initialize_is_safe() {
    let mut t = Terminal::mock(80, 24);
    let r = t.terminate();
    assert!(r.is_ok());
    assert!(!t.host().raw);
}

#[test]
fn size_reports_the_double_and_stays_stable() {
    let t = Terminal::mock(120, 40);
    let first = t.size().unwrap();
    let second = t.size().unwrap();
    assert_eq!(first, Size { height: 40, width: 120 });
    assert_eq!(first, second);
}

#[test]
fn size_follows_a_resize_of_the_double() {
    let mut t = Terminal::mock(80, 24);
    assert_eq!(t.size().unwrap(), Size { height: 24, width: 80 });
    t.set_mock_size(132, 50);
    assert_eq!(t.size().unwrap(), Size { height: 50, width: 132 });
}

#[test]
fn session_scenario_write_sequence() {
    let mut t = Terminal::mock(80, 24);
    t.initialize().unwrap();
    t.print_row(2, "hello").unwrap();
    t.execute().unwrap();
    assert_eq!(
        t.host().received,
        vec![
            Command::EnterAlternate,
            Command::ClearAll,
            Command::MoveTo(0, 0),
            Command::MoveTo(0, 2),
            Command::ClearLine,
            Command::Print(String::from("hello")),
        ]
    );
    assert_eq!(t.pending().len(), 0);
}

#[test]
fn every_queue_operation_stages_its_command() {
    let mut t = Terminal::mock(80, 24);
    t.clear_screen().unwrap();
    t.clear_line().unwrap();
    t.enter_alternate_screen().unwrap();
    t.leave_alternate_screen().unwrap();
    t.hide_caret().unwrap();
    t.show_caret().unwrap();
    t.print("ab").unwrap();
    assert_eq!(
        t.pending(),
        &vec![
            Command::ClearAll,
            Command::ClearLine,
            Command::EnterAlternate,
            Command::LeaveAlternate,
            Command::HideCaret,
            Command::ShowCaret,
            Command::Print(String::from("ab")),
        ]
    );
    assert_eq!(t.host().received.len(), 0);
}

#[test]
fn hide_and_show_toggle_the_double() {
    let mut t = Terminal::mock(80, 24);
    t.hide_caret().unwrap();
    t.execute().unwrap();
    assert!(!t.host().caret_visible);
    t.show_caret().unwrap();
    t.execute().unwrap();
    assert!(t.host().caret_visible);
}

#[test]
fn print_of_empty_text_stages_empty_text() {
    let mut t = Terminal::mock(80, 24);
    t.print("").unwrap();
    assert_eq!(t.pending(), &vec![Command::Print(String::new())]);
}

#[test]
fn clamped_truncates_deterministically() {
    let inside = Position::clamped(10, 20);
    assert_eq!((inside.col, inside.row), (10, 20));
    let top = Position::clamped(65534, 65534);
    assert_eq!((top.col, top.row), (65534, 65534));
    let over = Position::clamped(65535, 1_000_000);
    assert_eq!((over.col, over.row), (65534, 65534));
}

#[test]
fn a_live_handle_queues_like_the_double() {
    let mut t = Terminal::live();
    assert!(t.is_live());
    t.move_caret_to(Position { col: 1, row: 2 }).unwrap();
    t.print("ok").unwrap();
    assert_eq!(
        t.pending(),
        &vec![Command::MoveTo(1, 2), Command::Print(String::from("ok"))]
    );
    let before = t.pending().len();
    match t.execute() {
        Ok(()) => assert_eq!(t.pending().len(), 0),
        Err(_) => assert_eq!(t.pending().len(), before),
    }
}
