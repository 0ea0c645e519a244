use rsed::buffer::Buffer;
use rsed::cmd::Cmd;
use rsed::pos::{resolve_position, resolve_range, Pos, Range, ResolvedRange};
use rsed::ui::{usize_to_string, Action, PrintOption};
use rsed::{ErrorType, Output, Rsed};

fn editor_with(lines: &[&str]) -> Rsed {
    let mut ed = Rsed::new();
    ed.load_lines("test.txt".to_string(), lines.iter().map(|s| s.to_string()).collect());
    ed
}

fn command(ed: &mut Rsed, cmd: Cmd) -> Result<Output, rsed::Error> {
    assert!(!ed.is_insert_mode());
    ed.handle_action(Action::Command(cmd))
}

fn shown(out: Output) -> Vec<String> {
    match out {
        Output::Display(lines) => lines,
        other => panic!("expected Display, got {:?}", other),
    }
}

#[test]
fn resolve_position_line_is_identity() {
    for n in 1..=5 {
        assert_eq!(resolve_position(&Pos::Line(n), 3, 5), n);
    }
    assert_eq!(resolve_position(&Pos::Line(99), 3, 5), 99);
}

#[test]
fn resolve_position_current_and_last() {
    assert_eq!(resolve_position(&Pos::Current, 4, 7), 4);
    assert_eq!(resolve_position(&Pos::Current, 1, 0), 1);
    assert_eq!(resolve_position(&Pos::End, 4, 7), 7);
    assert_eq!(resolve_position(&Pos::End, 1, 0), 0);
}

#[test]
fn resolving_twice_gives_the_same_range() {
    let r = Range { start: Pos::Current, end: Pos::End };
    let first = resolve_range(&r, 2, 9);
    let second = resolve_range(&r, 2, 9);
    assert_eq!(first, second);
    assert_eq!(first, ResolvedRange { start: 2, end: 9 });
}

#[test]
fn reversed_range_is_not_swapped_by_resolution() {
    let r = Range { start: Pos::Line(3), end: Pos::Line(1) };
    let rr = resolve_range(&r, 1, 5);
    assert_eq!(rr, ResolvedRange { start: 3, end: 1 });
}

#[test]
fn insert_then_print_round_trip() {
    let mut ed = Rsed::new();
    command(&mut ed, Cmd::EnterInsertMode(Range { start: Pos::Current, end: Pos::Current }))
        .unwrap();
    assert!(ed.is_insert_mode());
    ed.handle_action(Action::Insert("a".to_string())).unwrap();
    ed.handle_action(Action::Insert("b".to_string())).unwrap();
    ed.handle_action(Action::InsertEnd).unwrap();
    assert!(!ed.is_insert_mode());
    assert_eq!(ed.current_line_number(), 3);
    let out = command(
        &mut ed,
        Cmd::Print(
            Range { start: Pos::Line(1), end: Pos::Line(2) },
            PrintOption::Normal,
        ),
    )
    .unwrap();
    assert_eq!(shown(out), vec!["a".to_string(), "b".to_string()]);
}

#[test]
fn delete_keeps_the_other_lines_in_order() {
    let mut ed = editor_with(&["one", "two", "three", "four", "five"]);
    command(&mut ed, Cmd::Delete(Range { start: Pos::Line(2), end: Pos::Line(3) })).unwrap();
    assert_eq!(ed.store_len(), 3);
    let out = command(
        &mut ed,
        Cmd::Print(Range { start: Pos::Line(1), end: Pos::End }, PrintOption::Normal),
    )
    .unwrap();
    assert_eq!(
        shown(out),
        vec!["one".to_string(), "four".to_string(), "five".to_string()]
    );
}

#[test]
fn jump_next_at_last_line_fails_and_keeps_cursor() {
    let mut ed = editor_with(&["a", "b"]);
    command(&mut ed, Cmd::Jump(Range { start: Pos::End, end: Pos::End })).unwrap();
    assert_eq!(ed.current_line_number(), 2);
    let err = command(&mut ed, Cmd::JumpNext).unwrap_err();
    assert!(matches!(err.error_type(), ErrorType::Unknown));
    assert_eq!(ed.current_line_number(), 2);
}

#[test]
fn jump_next_advances_and_shows_the_line() {
    let mut ed = editor_with(&["a", "b"]);
    let out = command(&mut ed, Cmd::JumpNext).unwrap();
    assert_eq!(ed.current_line_number(), 2);
    assert_eq!(shown(out), vec!["b".to_string()]);
}

#[test]
fn reversed_range_print_is_rejected() {
    let mut ed = editor_with(&["a", "b", "c"]);
    let cmd = Cmd::parse("3,1p").unwrap();
    let err = command(&mut ed, cmd).unwrap_err();
    assert!(matches!(err.error_type(), ErrorType::InvalidRange(_)));
}

#[test]
fn print_out_of_bounds_is_rejected() {
    let ed = editor_with(&["a"]);
    let err = ed
        .print_range(Range { start: Pos::Line(1), end: Pos::Line(2) }, PrintOption::Normal)
        .unwrap_err();
    assert!(matches!(err.error_type(), ErrorType::InvalidRange(_)));
}

#[test]
fn delete_out_of_bounds_is_rejected() {
    let mut ed = editor_with(&["a", "b"]);
    let err = command(&mut ed, Cmd::Delete(Range { start: Pos::Line(7), end: Pos::Line(7) }))
        .unwrap_err();
    assert!(matches!(err.error_type(), ErrorType::InvalidRange(_)));
    assert_eq!(ed.store_len(), 2);
}

#[test]
fn delete_to_the_end_pulls_the_cursor_back() {
    let mut ed = editor_with(&["a", "b", "c"]);
    command(&mut ed, Cmd::Jump(Range { start: Pos::End, end: Pos::End })).unwrap();
    assert_eq!(ed.current_line_number(), 3);
    command(&mut ed, Cmd::Delete(Range { start: Pos::Line(1), end: Pos::End })).unwrap();
    assert_eq!(ed.store_len(), 0);
    assert_eq!(ed.current_line_number(), 1);
}

#[test]
fn jump_moves_cursor_and_shows_destination() {
    let mut ed = editor_with(&["a", "b", "c"]);
    let out = command(&mut ed, Cmd::Jump(Range { start: Pos::Line(2), end: Pos::Line(2) }))
        .unwrap();
    assert_eq!(ed.current_line_number(), 2);
    assert_eq!(shown(out), vec!["b".to_string()]);
}

#[test]
fn jump_out_of_bounds_is_rejected_and_cursor_stays() {
    let mut ed = editor_with(&["a", "b", "c"]);
    let err = command(&mut ed, Cmd::Jump(Range { start: Pos::Line(9), end: Pos::Line(9) }))
        .unwrap_err();
    assert!(matches!(err.error_type(), ErrorType::InvalidRange(_)));
    assert_eq!(ed.current_line_number(), 1);
}

#[test]
fn numbered_print_prefixes_number_and_tab() {
    let ed = editor_with(&["x", "y"]);
    let out = ed
        .print_range(Range { start: Pos::Line(1), end: Pos::Line(2) }, PrintOption::Numbered)
        .unwrap();
    assert_eq!(shown(out), vec!["1\tx".to_string(), "2\ty".to_string()]);
}

#[test]
fn line_endings_print_appends_marker() {
    let ed = editor_with(&["x"]);
    let out = ed
        .print_range(Range { start: Pos::Line(1), end: Pos::Line(1) }, PrintOption::LineEndings)
        .unwrap();
    assert_eq!(shown(out), vec!["x$".to_string()]);
}

#[test]
fn print_line_number_shows_resolved_end() {
    let mut ed = editor_with(&["a", "b", "c"]);
    let out = command(&mut ed, Cmd::PrintLineNumber(Range { start: Pos::Line(1), end: Pos::End }))
        .unwrap();
    assert_eq!(shown(out), vec!["3".to_string()]);
}

#[test]
fn quit_stops_the_loop() {
    let mut ed = Rsed::new();
    assert!(ed.is_running());
    let out = command(&mut ed, Cmd::Quit).unwrap();
    assert!(matches!(out, Output::Nothing));
    assert!(!ed.is_running());
}

#[test]
fn write_with_filename_hands_back_the_lines() {
    let mut ed = editor_with(&["a", "b"]);
    let out = command(&mut ed, Cmd::Write(Some("out.txt".to_string()))).unwrap();
    match out {
        Output::Save(name, lines) => {
            assert_eq!(name, "out.txt");
            assert_eq!(lines, vec!["a".to_string(), "b".to_string()]);
        },
        other => panic!("expected Save, got {:?}", other),
    }
    ed.record_file_name("out.txt".to_string());
    assert_eq!(ed.current_file_name().as_deref(), Some("out.txt"));
}

#[test]
fn write_without_filename_is_unimplemented() {
    let mut ed = editor_with(&["a"]);
    let err = command(&mut ed, Cmd::Write(None)).unwrap_err();
    assert!(matches!(
        err.error_type(),
        ErrorType::UnimplementedCmd(Cmd::Write(None))
    ));
}

#[test]
fn debug_command_is_unimplemented() {
    let mut ed = editor_with(&["a"]);
    let err = command(&mut ed, Cmd::Debug(Range { start: Pos::Current, end: Pos::Current }))
        .unwrap_err();
    assert!(matches!(err.error_type(), ErrorType::UnimplementedCmd(_)));
}

#[test]
fn edit_requests_a_load_and_load_lines_resets_state() {
    let mut ed = editor_with(&["a", "b"]);
    command(&mut ed, Cmd::Jump(Range { start: Pos::Line(2), end: Pos::Line(2) })).unwrap();
    let out = command(&mut ed, Cmd::Edit("other.txt".to_string())).unwrap();
    match out {
        Output::Load(name) => assert_eq!(name, "other.txt"),
        other => panic!("expected Load, got {:?}", other),
    }
    ed.load_lines(
        "other.txt".to_string(),
        vec!["x".to_string(), "y".to_string(), "z".to_string()],
    );
    assert_eq!(ed.store_len(), 3);
    assert_eq!(ed.current_line_number(), 1);
    assert_eq!(ed.current_file_name().as_deref(), Some("other.txt"));
}

#[test]
fn insert_in_the_middle_lands_before_the_anchor_line() {
    let mut ed = editor_with(&["a", "d"]);
    command(&mut ed, Cmd::EnterInsertMode(Range { start: Pos::Line(2), end: Pos::Line(2) }))
        .unwrap();
    ed.handle_action(Action::Insert("b".to_string())).unwrap();
    ed.handle_action(Action::Insert("c".to_string())).unwrap();
    ed.handle_action(Action::InsertEnd).unwrap();
    assert_eq!(ed.current_line_number(), 4);
    let out = ed
        .print_range(Range { start: Pos::Line(1), end: Pos::End }, PrintOption::Normal)
        .unwrap();
    assert_eq!(
        shown(out),
        vec!["a".to_string(), "b".to_string(), "c".to_string(), "d".to_string()]
    );
}

#[test]
fn enter_insert_out_of_bounds_is_rejected() {
    let mut ed = editor_with(&["a", "b"]);
    let err = command(
        &mut ed,
        Cmd::EnterInsertMode(Range { start: Pos::Line(9), end: Pos::Line(9) }),
    )
    .unwrap_err();
    assert!(matches!(err.error_type(), ErrorType::InvalidRange(_)));
    assert!(!ed.is_insert_mode());
}

#[test]
fn decimal_rendering_is_exact() {
    assert_eq!(usize_to_string(0), "0");
    assert_eq!(usize_to_string(7), "7");
    assert_eq!(usize_to_string(10), "10");
    assert_eq!(usize_to_string(12345), "12345");
    assert_eq!(usize_to_string(1000), "1000");
}

#[test]
fn buffer_operations_work_on_lines() {
    let mut b = Buffer::new();
    assert_eq!(b.len(), 0);
    b.add_line("a".to_string());
    b.add_line("c".to_string());
    assert_eq!(b.len(), 2);
    assert_eq!(b.line(2), "c");
    let mut mid = Buffer::new();
    mid.add_line("b".to_string());
    b.insert_buffer(2, mid);
    assert_eq!(b.all_lines(), vec!["a".to_string(), "b".to_string(), "c".to_string()]);
    assert_eq!(b.line_range(2, 3), vec!["b".to_string(), "c".to_string()]);
    b.delete_lines(1, 2);
    assert_eq!(b.all_lines(), vec!["c".to_string()]);
    assert!(b.is_out_of_bounds(0));
    assert!(b.is_out_of_bounds(2));
    assert!(!b.is_out_of_bounds(1));
    assert!(b.is_range_out_of_bounds(&ResolvedRange { start: 1, end: 2 }));
    assert!(!b.is_range_out_of_bounds(&ResolvedRange { start: 1, end: 1 }));
}

#[test]
fn print_on_empty_store_is_rejected() {
    let ed = Rsed::new();
    let err = ed
        .print_range(Range { start: Pos::Current, end: Pos::Current }, PrintOption::Normal)
        .unwrap_err();
    assert!(matches!(err.error_type(), ErrorType::InvalidRange(_)));
}

#[test]
fn jump_next_on_empty_store_fails() {
    let mut ed = Rsed::new();
    let err = command(&mut ed, Cmd::JumpNext).unwrap_err();
    assert!(matches!(err.error_type(), ErrorType::Unknown));
    assert_eq!(ed.current_line_number(), 1);
}

#[test]
fn insert_anchored_just_past_the_last_line_appends() {
    let mut ed = editor_with(&["a", "b"]);
    command(&mut ed, Cmd::EnterInsertMode(Range { start: Pos::Line(3), end: Pos::Line(3) }))
        .unwrap();
    ed.handle_action(Action::Insert("c".to_string())).unwrap();
    ed.handle_action(Action::InsertEnd).unwrap();
    assert_eq!(ed.current_line_number(), 4);
    let out = ed
        .print_range(Range { start: Pos::Line(1), end: Pos::End }, PrintOption::Normal)
        .unwrap();
    assert_eq!(shown(out), vec!["a".to_string(), "b".to_string(), "c".to_string()]);
}

#[test]
fn default_editor_matches_new() {
    let ed = Rsed::default();
    assert_eq!(ed.store_len(), 0);
    assert_eq!(ed.current_line_number(), 1);
    assert!(ed.is_running());
    assert!(!ed.is_insert_mode());
    assert!(ed.current_file_name().is_none());
}
