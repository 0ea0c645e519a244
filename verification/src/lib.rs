//! A line-oriented text editor core in the tradition of `ed`: a command
//! parser, a resolver that turns symbolic line addresses into concrete
//! indices, and the mode state machine that routes input between command
//! interpretation and raw-text insertion.
//!
//! The library is the pure core: it parses, resolves, mutates the in-memory
//! line store and renders output lines.  Reading the terminal and touching
//! files is left to the surrounding program, which the interpreter directs
//! through the values it returns.

use vstd::prelude::*;

pub mod buffer;
pub mod cmd;
pub mod pos;
pub mod ui;

use crate::cmd::Cmd;
use crate::pos::Range;
use crate::ui::Action;

verus! {

/// The kinds of failure a command can end in.  I/O failures are reported
/// by the surrounding program as the message of the underlying error.
#[derive(Debug)]
pub enum ErrorType {
    Unknown,
    ParseError,
    IoError(String),
    UnimplementedCmd(Cmd),
    UnimplementedAction(Action),
    InvalidRange(Range),
}

/// An error: a kind plus an optional human-readable message.
#[derive(Debug)]
pub struct Error {
    msg: String,
    error: ErrorType,
}

impl Error {
    /// The kind of this error.
    pub closed spec fn err_type(self) -> ErrorType {
        self.error
    }

    /// The message of this error.
    pub closed spec fn msg_view(self) -> Seq<char> {
        self.msg@
    }

    /// A catch-all error carrying only a message.
    pub fn unknown(msg: &str) -> (r: Error)
        ensures
            r.err_type() is Unknown,
            r.msg_view() == msg@,
    {
        Error { msg: msg.to_owned(), error: ErrorType::Unknown }
    }

    /// An error of the given kind, with no message.
    pub fn new(error: ErrorType) -> (r: Error)
        ensures
            r.err_type() == error,
            r.msg_view() == Seq::<char>::empty(),
    {
        Error { msg: String::new(), error }
    }

    /// An error of the given kind, with a message.
    pub fn detailed(error: ErrorType, msg: &str) -> (r: Error)
        ensures
            r.err_type() == error,
            r.msg_view() == msg@,
    {
        Error { msg: msg.to_owned(), error }
    }

    /// Read the kind back, e.g. for the interactive loop's report.
    pub fn error_type(&self) -> (r: &ErrorType)
        ensures
            *r == self.err_type(),
    {
        &self.error
    }

    /// Read the message back.
    pub fn message(&self) -> (r: &String)
        ensures
            r@ == self.msg_view(),
    {
        &self.msg
    }
}

/// The pending insertion while in insert mode: the anchor the block will be
/// inserted at — resolved once, when insert mode was entered, so that a
/// `.` anchor cannot drift — and the raw lines collected so far.
#[derive(Debug)]
pub struct InputInformation {
    pub position: usize,
    pub input_buffer: buffer::Buffer,
}

impl InputInformation {
    /// A fresh pending insertion at the given anchor, with no lines yet.
    pub fn new(position: usize) -> (r: InputInformation)
        ensures
            r.position == position,
            r.input_buffer@ == Seq::<Seq<char>>::empty(),
    {
        InputInformation { position, input_buffer: buffer::Buffer::new() }
    }
}

/// The interpreter's mode: an explicit tagged union, so that receiving the
/// wrong kind of event for the mode is a routing-contract violation the
/// types can state, not a hidden flag.
#[derive(Debug)]
pub enum Mode {
    Command,
    Insert(InputInformation),
}

/// What a successfully handled action asks the surrounding program to do:
/// nothing, show lines, load a file's lines and hand them back through
/// [`Rsed::load_lines`], or write the given lines to a file (recording the
/// name through [`Rsed::record_file_name`] on success).
#[derive(Debug)]
pub enum Output {
    Nothing,
    Display(Vec<String>),
    Load(String),
    Save(String, Vec<String>),
}

/// The editor state machine: the document, the current-line cursor, the
/// mode, the running flag and the recorded file name.
#[derive(Debug)]
pub struct Rsed {
    current_buffer: buffer::Buffer,
    mode: Mode,
    current_line: usize,
    running: bool,
    file_name: Option<String>,
}

impl Rsed {
    /// The document, as a sequence of lines.
    pub closed spec fn lines(self) -> Seq<Seq<char>> {
        self.current_buffer@
    }

    /// The 1-based current-line cursor.
    pub closed spec fn cursor(self) -> usize {
        self.current_line
    }

    /// Whether the machine is in insert mode.
    pub closed spec fn in_insert(self) -> bool {
        self.mode is Insert
    }

    /// The pending insertion's anchor (meaningful only in insert mode).
    pub closed spec fn anchor(self) -> usize {
        self.mode->Insert_0.position
    }

    /// The raw lines collected so far (meaningful only in insert mode).
    pub closed spec fn pending(self) -> Seq<Seq<char>> {
        self.mode->Insert_0.input_buffer@
    }

    /// Whether the interpreter loop should keep running.
    pub closed spec fn live(self) -> bool {
        self.running
    }

    /// The recorded file name.
    pub closed spec fn file(self) -> Option<Seq<char>> {
        match self.file_name {
            Some(f) => Some(f@),
            None => None,
        }
    }

    /// The store length, as the resolvers take it.
    pub open spec fn spec_store_len(self) -> usize {
        self.lines().len() as usize
    }

    /// The range `r` resolved against this state.
    pub open spec fn spec_rr(self, r: pos::Range) -> pos::ResolvedRange {
        pos::spec_resolve_range(r, self.cursor(), self.spec_store_len())
    }

    /// The state invariant: the cursor is 1-based and never points past the
    /// position just after the last line; a pending insertion's anchor obeys
    /// the same bound, so ending the insertion always has a place to insert.
    pub open spec fn inv(self) -> bool {
        &&& 1 <= self.cursor() <= self.lines().len() + 1
        &&& (self.in_insert() ==> 1 <= self.anchor() <= self.lines().len() + 1)
    }

    /// A fresh editor: empty document, cursor on line 1, command mode.
    pub fn new() -> (r: Rsed)
        ensures
            r.inv(),
            r.lines() == Seq::<Seq<char>>::empty(),
            r.cursor() == 1,
            !r.in_insert(),
            r.live(),
            r.file() is None,
    {
        Rsed {
            current_buffer: buffer::Buffer::new(),
            mode: Mode::Command,
            current_line: 1,
            running: true,
            file_name: None,
        }
    }

    /// How many lines the document has.
    pub fn store_len(&self) -> (n: usize)
        ensures
            n == self.lines().len(),
    {
        self.current_buffer.len()
    }

    /// The cursor, 1-based.
    pub fn current_line_number(&self) -> (n: usize)
        ensures
            n == self.cursor(),
    {
        self.current_line
    }

    /// Whether raw text lines are being collected.
    pub fn is_insert_mode(&self) -> (r: bool)
        ensures
            r == self.in_insert(),
    {
        match self.mode {
            Mode::Insert(_) => true,
            Mode::Command => false,
        }
    }

    /// Whether the interpreter loop should continue.
    pub fn is_running(&self) -> (r: bool)
        ensures
            r == self.live(),
    {
        self.running
    }

    /// The recorded file name, if any.
    pub fn current_file_name(&self) -> (r: &Option<String>)
        ensures
            match r {
                Some(f) => self.file() == Some(f@),
                None => self.file() is None,
            },
    {
        &self.file_name
    }
}

/// `Quit`: stop the loop; nothing else changes.
pub open spec fn quit_post(pre: Rsed, post: Rsed, res: Result<Output, Error>) -> bool {
    &&& res == Ok::<Output, Error>(Output::Nothing)
    &&& post.lines() == pre.lines()
    &&& post.cursor() == pre.cursor()
    &&& !post.in_insert()
    &&& !post.live()
    &&& post.file() == pre.file()
}

/// `Delete`: with a valid, forward span the lines go; the cursor is pulled
/// back just enough to stay within the shrunken document.  Any other span
/// is rejected unchanged.
pub open spec fn delete_post(pre: Rsed, r: pos::Range, post: Rsed, res: Result<Output, Error>) -> bool {
    let rr = pre.spec_rr(r);
    if 1 <= rr.start && rr.start <= rr.end && rr.end <= pre.lines().len() {
        &&& res == Ok::<Output, Error>(Output::Nothing)
        &&& post.lines() == pre.lines().take(rr.start - 1) + pre.lines().skip(rr.end as int)
        &&& post.cursor() == if pre.cursor() <= post.lines().len() + 1 {
            pre.cursor() as int
        } else {
            post.lines().len() + 1 as int
        }
        &&& !post.in_insert()
        &&& post.live() == pre.live()
        &&& post.file() == pre.file()
    } else {
        &&& res is Err
        &&& res->Err_0.err_type() == ErrorType::InvalidRange(r)
        &&& post == pre
    }
}

/// `Print`: a valid, forward span renders under the style; anything else is
/// rejected.  The state never changes.
pub open spec fn print_post(pre: Rsed, r: pos::Range, option: ui::PrintOption, res: Result<
    Output,
    Error,
>) -> bool {
    let rr = pre.spec_rr(r);
    if 1 <= rr.start && rr.start <= rr.end && rr.end <= pre.lines().len() {
        &&& res is Ok
        &&& res->Ok_0 is Display
        &&& res->Ok_0->Display_0.deep_view() == ui::spec_render(
            pre.lines(),
            rr.start as int,
            rr.end as int,
            option,
        )
    } else {
        &&& res is Err
        &&& res->Err_0.err_type() == ErrorType::InvalidRange(r)
    }
}

/// `PrintLineNumber`: one output line, the resolved end index in decimal.
/// Unlike `Print`, this command performs no bounds check.
pub open spec fn print_line_number_post(pre: Rsed, r: pos::Range, res: Result<Output, Error>) -> bool {
    let rr = pre.spec_rr(r);
    &&& res is Ok
    &&& res->Ok_0 is Display
    &&& res->Ok_0->Display_0.deep_view() == seq![ui::spec_decimal(rr.end as int)]
}

/// `Jump`: the end address must name a line of the document; the cursor
/// moves there and that line is shown.  Out of bounds is rejected unchanged.
pub open spec fn jump_post(pre: Rsed, r: pos::Range, post: Rsed, res: Result<Output, Error>) -> bool {
    let p = pos::spec_resolve_position(r.end, pre.cursor(), pre.spec_store_len());
    if 1 <= p && p <= pre.lines().len() {
        &&& res is Ok
        &&& res->Ok_0 is Display
        &&& res->Ok_0->Display_0.deep_view() == ui::spec_render(
            pre.lines(),
            p as int,
            p as int,
            ui::PrintOption::Normal,
        )
        &&& post.lines() == pre.lines()
        &&& post.cursor() == p
        &&& !post.in_insert()
        &&& post.live() == pre.live()
        &&& post.file() == pre.file()
    } else {
        &&& res is Err
        &&& res->Err_0.err_type() == ErrorType::InvalidRange(r)
        &&& post == pre
    }
}

/// `JumpNext`: advance to the next line and show it; at or past the last
/// line it fails out-of-bounds and the cursor stays put.
pub open spec fn jump_next_post(pre: Rsed, post: Rsed, res: Result<Output, Error>) -> bool {
    if pre.cursor() < pre.lines().len() {
        &&& res is Ok
        &&& res->Ok_0 is Display
        &&& res->Ok_0->Display_0.deep_view() == ui::spec_render(
            pre.lines(),
            pre.cursor() + 1,
            pre.cursor() + 1,
            ui::PrintOption::Normal,
        )
        &&& post.lines() == pre.lines()
        &&& post.cursor() == pre.cursor() + 1
        &&& !post.in_insert()
        &&& post.live() == pre.live()
        &&& post.file() == pre.file()
    } else {
        &&& res is Err
        &&& res->Err_0.err_type() is Unknown
        &&& post == pre
    }
}

/// `EnterInsert`: the end address resolves once, now, to the anchor; it may
/// point at any line or just past the last.  A fresh empty pending buffer
/// is allocated and the machine enters insert mode.
pub open spec fn enter_insert_post(pre: Rsed, r: pos::Range, post: Rsed, res: Result<
    Output,
    Error,
>) -> bool {
    let anchor = pos::spec_resolve_position(r.end, pre.cursor(), pre.spec_store_len());
    if 1 <= anchor && anchor <= pre.lines().len() + 1 {
        &&& res == Ok::<Output, Error>(Output::Nothing)
        &&& post.in_insert()
        &&& post.anchor() == anchor
        &&& post.pending() == Seq::<Seq<char>>::empty()
        &&& post.lines() == pre.lines()
        &&& post.cursor() == pre.cursor()
        &&& post.live() == pre.live()
        &&& post.file() == pre.file()
    } else {
        &&& res is Err
        &&& res->Err_0.err_type() == ErrorType::InvalidRange(r)
        &&& post == pre
    }
}

/// A raw text line joins the pending buffer; document and cursor wait.
pub open spec fn insert_line_post(pre: Rsed, line: Seq<char>, post: Rsed, res: Result<
    Output,
    Error,
>) -> bool {
    &&& res == Ok::<Output, Error>(Output::Nothing)
    &&& post.in_insert()
    &&& post.anchor() == pre.anchor()
    &&& post.pending() == pre.pending().push(line)
    &&& post.lines() == pre.lines()
    &&& post.cursor() == pre.cursor()
    &&& post.live() == pre.live()
    &&& post.file() == pre.file()
}

/// End of insertion: the collected lines enter the document at the anchor,
/// the cursor lands just past them, and command mode resumes.  Only a block
/// so large that the new cursor cannot be represented is refused, with the
/// machine left as it was.
pub open spec fn end_insert_post(pre: Rsed, post: Rsed, res: Result<Output, Error>) -> bool {
    let anchor = pre.anchor();
    let cnt = pre.pending().len();
    if anchor + cnt <= usize::MAX {
        &&& res == Ok::<Output, Error>(Output::Nothing)
        &&& post.lines() == pre.lines().take(anchor - 1) + pre.pending() + pre.lines().skip(
            anchor - 1,
        )
        &&& post.cursor() == anchor + cnt
        &&& !post.in_insert()
        &&& post.live() == pre.live()
        &&& post.file() == pre.file()
    } else {
        &&& res is Err
        &&& res->Err_0.err_type() is Unknown
        &&& post == pre
    }
}

impl Rsed {
    /// Delete the addressed span of lines.  See [`delete_post`].
    pub fn delete(&mut self, r: pos::Range) -> (res: Result<Output, Error>)
        requires
            old(self).inv(),
            !old(self).in_insert(),
        ensures
            final(self).inv(),
            delete_post(*old(self), r, *final(self), res),
    {
        let old_len = self.current_buffer.len();
        let rr = pos::resolve_range(&r, self.current_line, old_len);
        if self.current_buffer.is_range_out_of_bounds(&rr) {
            return Err(Error::new(ErrorType::InvalidRange(r)));
        }
        self.current_buffer.delete_lines(rr.start, rr.end);
        let new_len = self.current_buffer.len();
        if self.current_line > new_len + 1 {
            self.current_line = new_len + 1;
        }
        Ok(Output::Nothing)
    }

    /// Render the addressed span under a print style.  See [`print_post`].
    pub fn print_range(&self, r: pos::Range, option: ui::PrintOption) -> (res: Result<
        Output,
        Error,
    >)
        ensures
            print_post(*self, r, option, res),
    {
        let rr = pos::resolve_range(&r, self.current_line, self.current_buffer.len());
        if self.current_buffer.is_range_out_of_bounds(&rr) {
            return Err(Error::new(ErrorType::InvalidRange(r)));
        }
        Ok(Output::Display(ui::render_range(&self.current_buffer, &rr, option)))
    }

    /// Show the resolved end index of the addressed span as a number.
    /// See [`print_line_number_post`].
    pub fn print_line_number(&self, r: pos::Range) -> (res: Result<Output, Error>)
        ensures
            print_line_number_post(*self, r, res),
    {
        let rr = pos::resolve_range(&r, self.current_line, self.current_buffer.len());
        let mut out: Vec<String> = Vec::new();
        out.push(ui::usize_to_string(rr.end));
        proof {
            assert(out.deep_view() =~= seq![ui::spec_decimal(rr.end as int)]);
        }
        Ok(Output::Display(out))
    }

    /// Move the cursor to the resolved end address and show that line.
    /// See [`jump_post`].
    pub fn jump_to(&mut self, r: pos::Range) -> (res: Result<Output, Error>)
        requires
            old(self).inv(),
            !old(self).in_insert(),
        ensures
            final(self).inv(),
            jump_post(*old(self), r, *final(self), res),
    {
        let p = pos::resolve_position(&r.end, self.current_line, self.current_buffer.len());
        if self.current_buffer.is_out_of_bounds(p) {
            return Err(Error::new(ErrorType::InvalidRange(r)));
        }
        self.current_line = p;
        let rr = pos::ResolvedRange { start: p, end: p };
        Ok(Output::Display(ui::render_range(&self.current_buffer, &rr, ui::PrintOption::Normal)))
    }

    /// Advance the cursor by one line and show it.  See [`jump_next_post`].
    pub fn jump_next(&mut self) -> (res: Result<Output, Error>)
        requires
            old(self).inv(),
            !old(self).in_insert(),
        ensures
            final(self).inv(),
            jump_next_post(*old(self), *final(self), res),
    {
        if self.current_line >= self.current_buffer.len() {
            return Err(Error::unknown("invalid line"));
        }
        self.current_line = self.current_line + 1;
        let rr = pos::ResolvedRange { start: self.current_line, end: self.current_line };
        Ok(Output::Display(ui::render_range(&self.current_buffer, &rr, ui::PrintOption::Normal)))
    }

    /// Enter insert mode, anchored at the resolved end address.
    /// See [`enter_insert_post`].
    pub fn enter_insert_mode(&mut self, r: pos::Range) -> (res: Result<Output, Error>)
        requires
            old(self).inv(),
            !old(self).in_insert(),
        ensures
            final(self).inv(),
            enter_insert_post(*old(self), r, *final(self), res),
    {
        let n = self.current_buffer.len();
        let anchor = pos::resolve_position(&r.end, self.current_line, n);
        if anchor == 0 || anchor - 1 > n {
            return Err(Error::new(ErrorType::InvalidRange(r)));
        }
        self.mode = Mode::Insert(InputInformation::new(anchor));
        Ok(Output::Nothing)
    }

    /// Append one raw line to the pending insertion.
    /// See [`insert_line_post`].
    pub fn insert_line(&mut self, s: String) -> (res: Result<Output, Error>)
        requires
            old(self).inv(),
            old(self).in_insert(),
        ensures
            final(self).inv(),
            insert_line_post(*old(self), s@, *final(self), res),
    {
        let mut m = Mode::Command;
        core::mem::swap(&mut self.mode, &mut m);
        match m {
            Mode::Insert(mut info) => {
                info.input_buffer.add_line(s);
                self.mode = Mode::Insert(info);
            },
            Mode::Command => {
                proof {
                    assert(false);
                }
            },
        }
        Ok(Output::Nothing)
    }

    /// Leave insert mode, inserting the pending lines at the anchor and
    /// moving the cursor just past them.  See [`end_insert_post`].
    pub fn end_insert_mode(&mut self) -> (res: Result<Output, Error>)
        requires
            old(self).inv(),
            old(self).in_insert(),
        ensures
            final(self).inv(),
            end_insert_post(*old(self), *final(self), res),
    {
        let mut m = Mode::Command;
        core::mem::swap(&mut self.mode, &mut m);
        match m {
            Mode::Insert(info) => {
                let anchor = info.position;
                match anchor.checked_add(info.input_buffer.len()) {
                    Some(new_cursor) => {
                        self.current_buffer.insert_buffer(anchor, info.input_buffer);
                        self.current_line = new_cursor;
                        Ok(Output::Nothing)
                    },
                    None => {
                        self.mode = Mode::Insert(info);
                        Err(Error::unknown("pending insertion too large"))
                    },
                }
            },
            Mode::Command => {
                proof {
                    assert(false);
                }
                Err(Error::unknown("not in insert mode"))
            },
        }
    }

    /// Replace the document with freshly loaded lines: cursor back to 1,
    /// the new name recorded.  The surrounding program calls this after it
    /// has read the file an `Edit` command named.
    pub fn load_lines(&mut self, name: String, lines: Vec<String>)
        requires
            old(self).inv(),
            !old(self).in_insert(),
        ensures
            final(self).inv(),
            final(self).lines() == lines.deep_view(),
            final(self).cursor() == 1,
            !final(self).in_insert(),
            final(self).live() == old(self).live(),
            final(self).file() == Some(name@),
    {
        self.current_buffer = buffer::Buffer::from_lines(lines);
        self.current_line = 1;
        self.file_name = Some(name);
    }

    /// Record the file name a successful `Write` went to.  Nothing else
    /// changes.
    pub fn record_file_name(&mut self, name: String)
        requires
            old(self).inv(),
        ensures
            final(self).inv(),
            final(self).lines() == old(self).lines(),
            final(self).cursor() == old(self).cursor(),
            final(self).in_insert() == old(self).in_insert(),
            final(self).in_insert() ==> final(self).anchor() == old(self).anchor()
                && final(self).pending() == old(self).pending(),
            final(self).live() == old(self).live(),
            final(self).file() == Some(name@),
    {
        self.file_name = Some(name);
    }

    /// Dispatch one event: a parsed command in command mode, a raw line or
    /// the end-of-insert signal in insert mode.  Events of the wrong kind
    /// for the mode are a broken routing contract and are excluded by
    /// precondition; the surrounding program checks the mode first and
    /// treats a mismatch as fatal.
    pub fn handle_action(&mut self, action: Action) -> (res: Result<Output, Error>)
        requires
            old(self).inv(),
            action is Command ==> !old(self).in_insert(),
            action is Insert || action is InsertEnd ==> old(self).in_insert(),
        ensures
            final(self).inv(),
            match action {
                Action::Command(cmd) => match cmd {
                    Cmd::Quit => quit_post(*old(self), *final(self), res),
                    Cmd::Delete(r) => delete_post(*old(self), r, *final(self), res),
                    Cmd::Print(r, option) => print_post(*old(self), r, option, res) && *final(self)
                        == *old(self),
                    Cmd::Jump(r) => jump_post(*old(self), r, *final(self), res),
                    Cmd::PrintLineNumber(r) => print_line_number_post(*old(self), r, res)
                        && *final(self) == *old(self),
                    Cmd::JumpNext => jump_next_post(*old(self), *final(self), res),
                    Cmd::Edit(f) => res is Ok && res->Ok_0 is Load && res->Ok_0->Load_0@ == f@
                        && *final(self) == *old(self),
                    Cmd::Write(Some(f)) => res is Ok && res->Ok_0 is Save && res->Ok_0->Save_0@
                        == f@ && res->Ok_0->Save_1.deep_view() == old(self).lines() && *final(self)
                        == *old(self),
                    Cmd::Write(None) => res is Err && res->Err_0.err_type()
                        == ErrorType::UnimplementedCmd(Cmd::Write(None))
                        && *final(self) == *old(self),
                    Cmd::Debug(r) => res is Err && res->Err_0.err_type()
                        == ErrorType::UnimplementedCmd(Cmd::Debug(r)) && *final(self) == *old(self),
                    Cmd::EnterInsertMode(r) => enter_insert_post(*old(self), r, *final(self), res),
                },
                Action::Insert(s) => insert_line_post(*old(self), s@, *final(self), res),
                Action::InsertEnd => end_insert_post(*old(self), *final(self), res),
            },
    {
        match action {
            Action::Command(cmd) => match cmd {
                Cmd::Quit => {
                    self.running = false;
                    Ok(Output::Nothing)
                },
                Cmd::Delete(r) => self.delete(r),
                Cmd::Print(r, option) => self.print_range(r, option),
                Cmd::Jump(r) => self.jump_to(r),
                Cmd::PrintLineNumber(r) => self.print_line_number(r),
                Cmd::JumpNext => self.jump_next(),
                Cmd::Edit(f) => Ok(Output::Load(f)),
                Cmd::Write(Some(f)) => {
                    let all = self.current_buffer.all_lines();
                    Ok(Output::Save(f, all))
                },
                Cmd::Write(None) => Err(
                    Error::new(ErrorType::UnimplementedCmd(Cmd::Write(None))),
                ),
                Cmd::Debug(r) => Err(Error::new(ErrorType::UnimplementedCmd(Cmd::Debug(r)))),
                Cmd::EnterInsertMode(r) => self.enter_insert_mode(r),
            },
            Action::Insert(s) => self.insert_line(s),
            Action::InsertEnd => self.end_insert_mode(),
        }
    }
}

impl Default for Rsed {
    /// The same fresh editor as [`Rsed::new`].
    fn default() -> (r: Self)
        ensures
            r.inv(),
            r.lines() == Seq::<Seq<char>>::empty(),
            r.cursor() == 1,
            !r.in_insert(),
            r.live(),
            r.file() is None,
    {
        Rsed::new()
    }
}

} // verus!
