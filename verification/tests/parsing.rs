use rsed::cmd::{expect_no_arg, Cmd, ParsedData};
use rsed::pos::{Pos, Range};
use rsed::ui::PrintOption;
use rsed::{Error, ErrorType};

#[test]
fn empty_input_parses_to_jump_next() {
    assert!(matches!(Cmd::parse(""), Ok(Cmd::JumpNext)));
}

#[test]
fn parse_delete_with_range() {
    let cmd = Cmd::parse("2,3d").unwrap();
    assert!(matches!(
        cmd,
        Cmd::Delete(Range { start: Pos::Line(2), end: Pos::Line(3) })
    ));
}

#[test]
fn parse_print_defaults_to_current_line() {
    let cmd = Cmd::parse("p").unwrap();
    assert!(matches!(
        cmd,
        Cmd::Print(Range { start: Pos::Current, end: Pos::Current }, PrintOption::Normal)
    ));
}

#[test]
fn parse_numbered_print_with_line() {
    let cmd = Cmd::parse("5n").unwrap();
    assert!(matches!(
        cmd,
        Cmd::Print(Range { start: Pos::Line(5), end: Pos::Line(5) }, PrintOption::Numbered)
    ));
}

#[test]
fn parse_line_endings_print_of_last_line() {
    let cmd = Cmd::parse("$l").unwrap();
    assert!(matches!(
        cmd,
        Cmd::Print(Range { start: Pos::End, end: Pos::End }, PrintOption::LineEndings)
    ));
}

#[test]
fn parse_bare_range_is_jump() {
    let cmd = Cmd::parse("3").unwrap();
    assert!(matches!(
        cmd,
        Cmd::Jump(Range { start: Pos::Line(3), end: Pos::Line(3) })
    ));
}

#[test]
fn parse_dot_comma_dollar_range() {
    let cmd = Cmd::parse(".,$p").unwrap();
    assert!(matches!(
        cmd,
        Cmd::Print(Range { start: Pos::Current, end: Pos::End }, PrintOption::Normal)
    ));
}

#[test]
fn parse_quit() {
    assert!(matches!(Cmd::parse("q"), Ok(Cmd::Quit)));
}

#[test]
fn parse_enter_insert_default_range() {
    let cmd = Cmd::parse("i").unwrap();
    assert!(matches!(
        cmd,
        Cmd::EnterInsertMode(Range { start: Pos::Current, end: Pos::Current })
    ));
}

#[test]
fn parse_enter_insert_at_line() {
    let cmd = Cmd::parse("2i").unwrap();
    assert!(matches!(
        cmd,
        Cmd::EnterInsertMode(Range { start: Pos::Line(2), end: Pos::Line(2) })
    ));
}

#[test]
fn parse_print_line_number() {
    let cmd = Cmd::parse("=").unwrap();
    assert!(matches!(
        cmd,
        Cmd::PrintLineNumber(Range { start: Pos::Current, end: Pos::Current })
    ));
}

#[test]
fn parse_debug_command() {
    let cmd = Cmd::parse("1,$?").unwrap();
    assert!(matches!(
        cmd,
        Cmd::Debug(Range { start: Pos::Line(1), end: Pos::End })
    ));
}

#[test]
fn parse_write_with_filename() {
    let cmd = Cmd::parse("w out.txt").unwrap();
    match cmd {
        Cmd::Write(Some(f)) => assert_eq!(f, "out.txt"),
        other => panic!("expected Write(Some(..)), got {:?}", other),
    }
}

#[test]
fn parse_write_without_filename() {
    assert!(matches!(Cmd::parse("w"), Ok(Cmd::Write(None))));
}

#[test]
fn parse_write_with_empty_filename() {
    let cmd = Cmd::parse("w ").unwrap();
    match cmd {
        Cmd::Write(Some(f)) => assert_eq!(f, ""),
        other => panic!("expected Write(Some(\"\")), got {:?}", other),
    }
}

#[test]
fn parse_edit_with_filename() {
    let cmd = Cmd::parse("e notes.txt").unwrap();
    match cmd {
        Cmd::Edit(f) => assert_eq!(f, "notes.txt"),
        other => panic!("expected Edit, got {:?}", other),
    }
}

#[test]
fn parse_edit_without_filename_fails() {
    let err = Cmd::parse("e").unwrap_err();
    assert!(matches!(err.error_type(), ErrorType::ParseError));
}

#[test]
fn parse_no_arg_command_with_arg_fails() {
    let err = Cmd::parse("5d extra").unwrap_err();
    assert!(matches!(err.error_type(), ErrorType::ParseError));
}

#[test]
fn parse_unknown_command_fails() {
    let err = Cmd::parse("x").unwrap_err();
    assert!(matches!(err.error_type(), ErrorType::ParseError));
}

#[test]
fn parse_percent_range_fails() {
    let err = Cmd::parse("%p").unwrap_err();
    assert!(matches!(err.error_type(), ErrorType::ParseError));
}

#[test]
fn parse_zero_line_number_fails() {
    let err = Cmd::parse("0p").unwrap_err();
    assert!(matches!(err.error_type(), ErrorType::ParseError));
}

#[test]
fn parse_overflowing_line_number_fails() {
    let err = Cmd::parse("99999999999999999999999p").unwrap_err();
    assert!(matches!(err.error_type(), ErrorType::ParseError));
}

#[test]
fn parse_stray_text_fails() {
    let err = Cmd::parse("hello").unwrap_err();
    assert!(matches!(err.error_type(), ErrorType::ParseError));
}

#[test]
fn parse_double_comma_range_fails() {
    let err = Cmd::parse("1,2,3p").unwrap_err();
    assert!(matches!(err.error_type(), ErrorType::ParseError));
}

#[test]
fn parse_argument_without_command_fails() {
    let err = Cmd::parse(" foo").unwrap_err();
    assert!(matches!(err.error_type(), ErrorType::ParseError));
}

#[test]
fn parsed_data_empty_is_empty() {
    assert!(ParsedData::empty().is_empty());
    let pd = ParsedData { cmd_char: Some('p'), range: None, arg: None };
    assert!(!pd.is_empty());
}

#[test]
fn parsed_data_to_cmd_dispatches() {
    let pd = ParsedData { cmd_char: Some('d'), range: None, arg: None };
    assert!(matches!(
        pd.to_cmd(),
        Ok(Cmd::Delete(Range { start: Pos::Current, end: Pos::Current }))
    ));
}

#[test]
fn expect_no_arg_accepts_missing_argument() {
    let absent: Result<String, Error> = Err(Error::new(ErrorType::ParseError));
    assert!(matches!(expect_no_arg(absent, Cmd::Quit), Ok(Cmd::Quit)));
}

#[test]
fn expect_no_arg_rejects_present_argument() {
    let present: Result<String, Error> = Ok("junk".to_string());
    let err = expect_no_arg(present, Cmd::Quit).unwrap_err();
    assert!(matches!(err.error_type(), ErrorType::ParseError));
}

#[test]
fn error_constructors_record_kind_and_message() {
    let e = Error::unknown("mystery");
    assert!(matches!(e.error_type(), ErrorType::Unknown));
    assert_eq!(e.message(), "mystery");
    let e = Error::new(ErrorType::ParseError);
    assert!(matches!(e.error_type(), ErrorType::ParseError));
    assert_eq!(e.message(), "");
    let e = Error::detailed(ErrorType::ParseError, "bad range");
    assert!(matches!(e.error_type(), ErrorType::ParseError));
    assert_eq!(e.message(), "bad range");
}
