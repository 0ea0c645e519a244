//! The command parser: from one raw input line to a structured command.
//!
//! The grammar is the classic one-line address-command-argument form: an
//! optional range expression (digits for an absolute line, `.` for the
//! current line, `$` for the last, two addresses joined by `,`), an
//! optional single-letter command code, and an optional argument introduced
//! by a single space.  An empty input line is the bare-newline default and
//! parses to `JumpNext`.
//!
//! Parsing is a pure function of the input text; its whole behaviour is
//! pinned by `spec_parse` below.

use vstd::prelude::*;

use crate::pos::{Pos, Range, spec_current_line};
use crate::ui::PrintOption;
use crate::{Error, ErrorType};

verus! {

/// A structured command, ready for the interpreter.
#[derive(Debug)]
pub enum Cmd {
    EnterInsertMode(Range),
    Quit,
    Debug(Range),
    Jump(Range),
    Delete(Range),
    JumpNext,
    Print(Range, PrintOption),
    PrintLineNumber(Range),
    Edit(String),
    Write(Option<String>),
}

/// The mathematical model of a command: as `Cmd`, with text replaced by
/// character sequences.
pub enum CmdView {
    EnterInsertMode(Range),
    Quit,
    Debug(Range),
    Jump(Range),
    Delete(Range),
    JumpNext,
    Print(Range, PrintOption),
    PrintLineNumber(Range),
    Edit(Seq<char>),
    Write(Option<Seq<char>>),
}

impl View for Cmd {
    type V = CmdView;

    open spec fn view(&self) -> CmdView {
        match self {
            Cmd::EnterInsertMode(r) => CmdView::EnterInsertMode(*r),
            Cmd::Quit => CmdView::Quit,
            Cmd::Debug(r) => CmdView::Debug(*r),
            Cmd::Jump(r) => CmdView::Jump(*r),
            Cmd::Delete(r) => CmdView::Delete(*r),
            Cmd::JumpNext => CmdView::JumpNext,
            Cmd::Print(r, o) => CmdView::Print(*r, *o),
            Cmd::PrintLineNumber(r) => CmdView::PrintLineNumber(*r),
            Cmd::Edit(f) => CmdView::Edit(f@),
            Cmd::Write(o) => CmdView::Write(
                match o {
                    Some(f) => Some(f@),
                    None => None,
                },
            ),
        }
    }
}

/// The raw pieces of one input line, before command dispatch: an optional
/// command letter, an optional address range, an optional argument.
#[derive(Debug)]
pub struct ParsedData {
    pub cmd_char: Option<char>,
    pub range: Option<Range>,
    pub arg: Option<String>,
}

/// The mathematical model of `ParsedData`.
pub struct ParsedDataView {
    pub cmd_char: Option<char>,
    pub range: Option<Range>,
    pub arg: Option<Seq<char>>,
}

impl View for ParsedData {
    type V = ParsedDataView;

    open spec fn view(&self) -> ParsedDataView {
        ParsedDataView {
            cmd_char: self.cmd_char,
            range: self.range,
            arg: match &self.arg {
                Some(a) => Some(a@),
                None => None,
            },
        }
    }
}

/// Characters that may appear in a range expression.
pub open spec fn is_range_char(c: char) -> bool {
    is_digit(c) || c == '.' || c == '$' || c == ',' || c == '%'
}

/// Decimal digits.
pub open spec fn is_digit(c: char) -> bool {
    '0' as int <= c as int && c as int <= '9' as int
}

/// Characters that may stand as a command code: a letter, `?` or `=`.
pub open spec fn is_cmd_char(c: char) -> bool {
    ('a' as int <= c as int && c as int <= 'z' as int)
        || ('A' as int <= c as int && c as int <= 'Z' as int)
        || c == '?'
        || c == '='
}

/// The numeric value of a digit character.
pub open spec fn digit_val(c: char) -> int {
    c as int - '0' as int
}

pub open spec fn all_digits(t: Seq<char>) -> bool {
    forall|j: int| 0 <= j < t.len() ==> is_digit(#[trigger] t[j])
}

/// The value of a digit string, most significant digit first.
pub open spec fn digits_val(t: Seq<char>) -> int
    decreases t.len(),
{
    if t.len() == 0 {
        0
    } else {
        digits_val(t.drop_last()) * 10 + digit_val(t.last())
    }
}

/// What one address token denotes: `.` the current line, `$` the last
/// line, a non-empty digit string a positive absolute line number that
/// fits the machine.  Anything else is malformed.
pub open spec fn addr_of(t: Seq<char>) -> Option<Pos> {
    if t.len() == 1 && t[0] == '.' {
        Some(Pos::Current)
    } else if t.len() == 1 && t[0] == '$' {
        Some(Pos::End)
    } else if t.len() >= 1 && all_digits(t) && 1 <= digits_val(t) && digits_val(t)
        <= usize::MAX {
        Some(Pos::Line(digits_val(t) as usize))
    } else {
        None
    }
}

/// The index of the first comma of `t`, or `t.len()` if it has none.
pub open spec fn first_comma(t: Seq<char>) -> int
    decreases t.len(),
{
    if t.len() == 0 {
        0
    } else if t[0] == ',' {
        0
    } else {
        1 + first_comma(t.drop_first())
    }
}

/// What a whole range token denotes: one address, or two joined by the
/// first comma; a single address spans just itself.
pub open spec fn range_of(t: Seq<char>) -> Option<Range> {
    let k = first_comma(t);
    if k == t.len() {
        match addr_of(t) {
            Some(p) => Some(Range { start: p, end: p }),
            None => None,
        }
    } else {
        match (addr_of(t.take(k)), addr_of(t.skip(k + 1))) {
            (Some(a), Some(b)) => Some(Range { start: a, end: b }),
            _ => None,
        }
    }
}

/// The length of the leading run of range characters of `s`.
pub open spec fn range_token_len(s: Seq<char>) -> int
    decreases s.len(),
{
    if s.len() > 0 && is_range_char(s[0]) {
        1 + range_token_len(s.drop_first())
    } else {
        0
    }
}

/// How one input line splits into its raw pieces, or `None` where the
/// line does not fit the grammar: after the leading range token and an
/// optional command letter, either the line ends or a single space
/// introduces the argument (which may be empty); the range token, if
/// present, must denote a well-formed range.
pub open spec fn spec_split(s: Seq<char>) -> Option<ParsedDataView> {
    if s.len() == 0 {
        Some(ParsedDataView { cmd_char: None, range: None, arg: None })
    } else {
        let rl = range_token_len(s);
        let rest = s.skip(rl);
        let has_cmd = rest.len() > 0 && is_cmd_char(rest[0]);
        let rest2 = if has_cmd {
            rest.drop_first()
        } else {
            rest
        };
        if rest2.len() > 0 && rest2[0] != ' ' {
            None
        } else if rl > 0 && range_of(s.take(rl)) is None {
            None
        } else {
            Some(
                ParsedDataView {
                    cmd_char: if has_cmd {
                        Some(rest[0])
                    } else {
                        None
                    },
                    range: if rl == 0 {
                        None
                    } else {
                        range_of(s.take(rl))
                    },
                    arg: if rest2.len() == 0 {
                        None
                    } else {
                        Some(rest2.drop_first())
                    },
                },
            )
        }
    }
}

/// Which command the raw pieces dispatch to, or `None` for a parse error:
/// an all-absent split is the bare-newline `JumpNext`; a missing range
/// defaults to the current line; each code may take or requires an argument
/// as the table in the editor's documentation states; an unknown code or
/// a forbidden argument is an error.
pub open spec fn spec_to_cmd(pd: ParsedDataView) -> Option<CmdView> {
    if pd.cmd_char is None && pd.range is None && pd.arg is None {
        Some(CmdView::JumpNext)
    } else {
        let range = match pd.range {
            Some(r) => r,
            None => spec_current_line(),
        };
        match pd.cmd_char {
            Some(c) => if c == 'd' && pd.arg is None {
                Some(CmdView::Delete(range))
            } else if c == 'i' && pd.arg is None {
                Some(CmdView::EnterInsertMode(range))
            } else if c == 'q' && pd.arg is None {
                Some(CmdView::Quit)
            } else if c == 'p' && pd.arg is None {
                Some(CmdView::Print(range, PrintOption::Normal))
            } else if c == 'n' && pd.arg is None {
                Some(CmdView::Print(range, PrintOption::Numbered))
            } else if c == 'l' && pd.arg is None {
                Some(CmdView::Print(range, PrintOption::LineEndings))
            } else if c == '=' && pd.arg is None {
                Some(CmdView::PrintLineNumber(range))
            } else if c == '?' && pd.arg is None {
                Some(CmdView::Debug(range))
            } else if c == 'w' {
                Some(CmdView::Write(pd.arg))
            } else if c == 'e' {
                match pd.arg {
                    Some(a) => Some(CmdView::Edit(a)),
                    None => None,
                }
            } else {
                None
            },
            None => if pd.arg is None {
                Some(CmdView::Jump(range))
            } else {
                None
            },
        }
    }
}

/// The whole parse, as a function of the input text alone.
pub open spec fn spec_parse(s: Seq<char>) -> Option<CmdView> {
    match spec_split(s) {
        Some(pd) => spec_to_cmd(pd),
        None => None,
    }
}

impl CmdView {
    /// Every range a parsed command carries is made of well-formed
    /// addresses: an absolute line number is positive.
    pub open spec fn wf(self) -> bool {
        match self {
            CmdView::EnterInsertMode(r) => r.wf(),
            CmdView::Quit => true,
            CmdView::Debug(r) => r.wf(),
            CmdView::Jump(r) => r.wf(),
            CmdView::Delete(r) => r.wf(),
            CmdView::JumpNext => true,
            CmdView::Print(r, _) => r.wf(),
            CmdView::PrintLineNumber(r) => r.wf(),
            CmdView::Edit(_) => true,
            CmdView::Write(_) => true,
        }
    }
}

/// A parsed address is always well-formed: `.` and `$` carry nothing, and
/// a digit token only parses when its value is positive.
proof fn lemma_addr_of_wf(t: Seq<char>)
    ensures
        addr_of(t) is Some ==> addr_of(t)->Some_0.wf(),
{
}

/// So a parsed range is well-formed too.
proof fn lemma_range_of_wf(t: Seq<char>)
    ensures
        range_of(t) is Some ==> range_of(t)->Some_0.wf(),
{
    let k = first_comma(t);
    lemma_addr_of_wf(t);
    lemma_addr_of_wf(t.take(k));
    lemma_addr_of_wf(t.skip(k + 1));
}

/// And so is every command that comes out of the parse.
proof fn lemma_parse_wf(s: Seq<char>)
    ensures
        spec_parse(s) is Some ==> spec_parse(s)->Some_0.wf(),
{
    if spec_split(s) is Some {
        let rl = range_token_len(s);
        if s.len() > 0 && rl > 0 {
            lemma_range_of_wf(s.take(rl));
        }
    }
}

proof fn lemma_digits_val_nonneg(t: Seq<char>)
    requires
        all_digits(t),
    ensures
        digits_val(t) >= 0,
    decreases t.len(),
{
    if t.len() > 0 {
        assert(forall|j: int| 0 <= j < t.drop_last().len() ==> is_digit(#[trigger] t.drop_last()[j]));
        lemma_digits_val_nonneg(t.drop_last());
    }
}

/// A digit string is worth at least any of its prefixes.
proof fn lemma_digits_val_prefix(t: Seq<char>, m: int)
    requires
        all_digits(t),
        0 <= m <= t.len(),
    ensures
        digits_val(t.take(m)) <= digits_val(t),
    decreases t.len(),
{
    if m == t.len() {
        assert(t.take(m) =~= t);
    } else {
        assert(forall|j: int| 0 <= j < t.drop_last().len() ==> is_digit(#[trigger] t.drop_last()[j]));
        lemma_digits_val_prefix(t.drop_last(), m);
        assert(t.drop_last().take(m) =~= t.take(m));
        lemma_digits_val_nonneg(t.drop_last());
    }
}

proof fn lemma_first_comma(t: Seq<char>, k: int)
    requires
        0 <= k <= t.len(),
        forall|j: int| 0 <= j < k ==> #[trigger] t[j] != ',',
        k == t.len() || t[k] == ',',
    ensures
        first_comma(t) == k,
    decreases t.len(),
{
    if t.len() == 0 {
    } else if k == 0 {
    } else {
        lemma_first_comma(t.drop_first(), k - 1);
    }
}

proof fn lemma_range_token_len(s: Seq<char>, i: int)
    requires
        0 <= i <= s.len(),
        forall|j: int| 0 <= j < i ==> is_range_char(#[trigger] s[j]),
        i == s.len() || !is_range_char(s[i]),
    ensures
        range_token_len(s) == i,
    decreases s.len(),
{
    if i == 0 {
    } else {
        lemma_range_token_len(s.drop_first(), i - 1);
    }
}

/// Parse one address token, the characters of `s` from `lo` to `hi`.
#[verifier::loop_isolation(false)]
fn parse_addr(s: &str, lo: usize, hi: usize) -> (r: Option<Pos>)
    requires
        lo <= hi <= s@.len(),
    ensures
        r == addr_of(s@.subrange(lo as int, hi as int)),
{
    let ghost t = s@.subrange(lo as int, hi as int);
    if hi - lo == 1 {
        let c = s.get_char(lo);
        if c == '.' {
            return Some(Pos::Current);
        }
        if c == '$' {
            return Some(Pos::End);
        }
    }
    if hi == lo {
        return None;
    }
    let mut val: usize = 0;
    let mut j: usize = lo;
    while j < hi
        invariant
            lo <= j <= hi <= s@.len(),
            t == s@.subrange(lo as int, hi as int),
            all_digits(t.take(j - lo)),
            val == digits_val(t.take(j - lo)),
        decreases hi - j,
    {
        let c = s.get_char(j);
        let u = c as u32;
        proof {
            assert(t[j - lo] == s@[j as int]);
        }
        if !(48 <= u && u <= 57) {
            proof {
                assert(!is_digit(t[j - lo]));
                assert(addr_of(t) is None);
            }
            return None;
        }
        let d = (u - 48) as usize;
        proof {
            assert(d == digit_val(t[j - lo]));
            assert(t.take(j - lo + 1).drop_last() =~= t.take(j - lo));
            assert(t.take(j - lo + 1).last() == t[j - lo]);
        }
        if val > (usize::MAX - d) / 10 {
            proof {
                lemma_overflow_bound(val, d);
                assert(digits_val(t.take(j - lo + 1)) > usize::MAX);
                if j == lo {
                    assert(t.take(0).len() == 0);
                    assert(val == 0);
                    assert(false);
                }
                assert(t.len() >= 2);
                if all_digits(t) {
                    lemma_digits_val_prefix(t, j - lo + 1);
                }
                assert(addr_of(t) is None);
            }
            return None;
        }
        proof {
            lemma_no_overflow_bound(val, d);
        }
        val = val * 10 + d;
        j = j + 1;
    }
    proof {
        assert(t.take(hi - lo) =~= t);
    }
    if val == 0 {
        proof {
            assert(addr_of(t) is None);
        }
        return None;
    }
    Some(Pos::Line(val))
}

/// `val * 10 + d` stays within the machine when `val <= (MAX - d) / 10`.
proof fn lemma_no_overflow_bound(val: usize, d: usize)
    requires
        d <= 9,
        val <= (usize::MAX - d) / 10,
    ensures
        val * 10 + d <= usize::MAX,
{
    let q = ((usize::MAX - d) / 10) as int;
    vstd::arithmetic::div_mod::lemma_fundamental_div_mod(usize::MAX - d, 10);
    assert(val * 10 <= q * 10) by (nonlinear_arith)
        requires
            val <= q,
            q >= 0,
    ;
}

/// And it overflows when `val > (MAX - d) / 10`.
proof fn lemma_overflow_bound(val: usize, d: usize)
    requires
        d <= 9,
        val > (usize::MAX - d) / 10,
    ensures
        val * 10 + d > usize::MAX,
{
    let q = ((usize::MAX - d) / 10) as int;
    vstd::arithmetic::div_mod::lemma_fundamental_div_mod(usize::MAX - d, 10);
    assert(val * 10 >= (q + 1) * 10) by (nonlinear_arith)
        requires
            val >= q + 1,
            q >= 0,
    ;
}

/// Parse the whole range token, the first `hi` characters of `s`.
fn parse_range_token(s: &str, hi: usize) -> (r: Option<Range>)
    requires
        1 <= hi <= s@.len(),
    ensures
        r == range_of(s@.take(hi as int)),
{
    let ghost t = s@.take(hi as int);
    let mut k: usize = 0;
    while k < hi && s.get_char(k) != ','
        invariant
            0 <= k <= hi <= s@.len(),
            t == s@.take(hi as int),
            forall|j: int| 0 <= j < k ==> #[trigger] t[j] != ',',
        decreases hi - k,
    {
        k = k + 1;
    }
    proof {
        lemma_first_comma(t, k as int);
    }
    if k == hi {
        proof {
            assert(t.subrange(0, hi as int) =~= t);
            assert(s@.subrange(0, hi as int) =~= t);
        }
        match parse_addr(s, 0, hi) {
            Some(p) => Some(Range { start: p, end: p }),
            None => None,
        }
    } else {
        proof {
            assert(s@.subrange(0, k as int) =~= t.take(k as int));
            assert(s@.subrange(k + 1, hi as int) =~= t.skip(k + 1));
        }
        let a = parse_addr(s, 0, k);
        let b = parse_addr(s, k + 1, hi);
        match (a, b) {
            (Some(a), Some(b)) => Some(Range { start: a, end: b }),
            _ => None,
        }
    }
}

impl ParsedData {
    /// The split with nothing present: what an empty input line yields.
    pub fn empty() -> (r: ParsedData)
        ensures
            r@ == (ParsedDataView { cmd_char: None, range: None, arg: None }),
    {
        ParsedData { cmd_char: None, range: None, arg: None }
    }

    /// Whether nothing at all was present on the line.
    pub fn is_empty(&self) -> (r: bool)
        ensures
            r == (self@.cmd_char is None && self@.range is None && self@.arg is None),
    {
        match (&self.cmd_char, &self.range, &self.arg) {
            (None, None, None) => true,
            _ => false,
        }
    }

    /// Split one raw input line into its pieces, rejecting anything outside
    /// the grammar with a parse error.
    pub fn parse(s: &str) -> (r: Result<ParsedData, Error>)
        ensures
            r is Ok <==> spec_split(s@) is Some,
            r is Ok ==> Some(r->Ok_0@) == spec_split(s@),
            r is Err ==> r->Err_0.err_type() is ParseError,
    {
        let n = s.unicode_len();
        if n == 0 {
            return Ok(ParsedData::empty());
        }
        let mut i: usize = 0;
        while i < n && is_range_char_exec(s.get_char(i))
            invariant
                0 <= i <= n == s@.len(),
            forall|j: int| 0 <= j < i ==> is_range_char(#[trigger] s@[j]),
            decreases n - i,
        {
            i = i + 1;
        }
        proof {
            lemma_range_token_len(s@, i as int);
        }
        let has_cmd = i < n && is_cmd_char_exec(s.get_char(i));
        let cmd_char: Option<char> = if has_cmd {
            Some(s.get_char(i))
        } else {
            None
        };
        let ci: usize = if has_cmd {
            i + 1
        } else {
            i
        };
        proof {
            assert(s@.skip(i as int).len() > 0 ==> s@.skip(i as int)[0] == s@[i as int]);
        }
        let arg: Option<String> = if ci == n {
            None
        } else {
            proof {
                let rest = s@.skip(i as int);
                let rest2 = if has_cmd { rest.drop_first() } else { rest };
                assert(rest2[0] == s@[ci as int]);
            }
            if s.get_char(ci) != ' ' {
                return Err(Error::new(ErrorType::ParseError));
            }
            let a = String::from_str(s.substring_char(ci + 1, n));
            proof {
                let rest = s@.skip(i as int);
                let rest2 = if has_cmd { rest.drop_first() } else { rest };
                assert(a@ =~= rest2.drop_first());
            }
            Some(a)
        };
        let range: Option<Range> = if i == 0 {
            None
        } else {
            match parse_range_token(s, i) {
                Some(r) => Some(r),
                None => {
                    return Err(Error::detailed(ErrorType::ParseError, "invalid range"));
                },
            }
        };
        let pd = ParsedData { cmd_char, range, arg };
        proof {
            let rest = s@.skip(i as int);
            let rest2 = if has_cmd { rest.drop_first() } else { rest };
            assert(rest2.len() == 0 <==> ci == n);
            assert(spec_split(s@) == Some(pd@));
        }
        Ok(pd)
    }

    /// Dispatch the split pieces to a command, enforcing each code's
    /// argument policy.
    pub fn to_cmd(self) -> (r: Result<Cmd, Error>)
        ensures
            r is Ok <==> spec_to_cmd(self@) is Some,
            r is Ok ==> Some(r->Ok_0@) == spec_to_cmd(self@),
            r is Err ==> r->Err_0.err_type() is ParseError,
    {
        if self.is_empty() {
            return Ok(Cmd::JumpNext);
        }
        let ParsedData { cmd_char, range, arg } = self;
        let range = match range {
            Some(r) => r,
            None => Range::current_line(),
        };
        let arg: Result<String, Error> = match arg {
            Some(a) => Ok(a),
            None => Err(Error::detailed(ErrorType::ParseError, "arg expected")),
        };
        if let Some(c) = cmd_char {
            match c {
                'd' => expect_no_arg(arg, Cmd::Delete(range)),
                'i' => expect_no_arg(arg, Cmd::EnterInsertMode(range)),
                'q' => expect_no_arg(arg, Cmd::Quit),
                'p' => expect_no_arg(arg, Cmd::Print(range, PrintOption::Normal)),
                'n' => expect_no_arg(arg, Cmd::Print(range, PrintOption::Numbered)),
                'l' => expect_no_arg(arg, Cmd::Print(range, PrintOption::LineEndings)),
                '=' => expect_no_arg(arg, Cmd::PrintLineNumber(range)),
                '?' => expect_no_arg(arg, Cmd::Debug(range)),
                'w' => Ok(Cmd::Write(arg.ok())),
                'e' => match arg {
                    Ok(a) => Ok(Cmd::Edit(a)),
                    Err(e) => Err(e),
                },
                _ => Err(Error::detailed(ErrorType::ParseError, "unknown command")),
            }
        } else {
            expect_no_arg(arg, Cmd::Jump(range))
        }
    }
}

/// Accept `cmd` only when no argument was given; a present argument is a
/// parse error for the no-argument commands.
pub fn expect_no_arg(arg: Result<String, Error>, cmd: Cmd) -> (r: Result<Cmd, Error>)
    ensures
        arg is Err ==> r == Ok::<Cmd, Error>(cmd),
        arg is Ok ==> r is Err && r->Err_0.err_type() is ParseError,
{
    match arg {
        Err(_) => Ok(cmd),
        _ => Err(Error::detailed(ErrorType::ParseError, "no arg expected")),
    }
}

fn is_range_char_exec(c: char) -> (r: bool)
    ensures
        r == is_range_char(c),
{
    let u = c as u32;
    (48 <= u && u <= 57) || c == '.' || c == '$' || c == ',' || c == '%'
}

fn is_cmd_char_exec(c: char) -> (r: bool)
    ensures
        r == is_cmd_char(c),
{
    let u = c as u32;
    (97 <= u && u <= 122) || (65 <= u && u <= 90) || c == '?' || c == '='
}

impl Cmd {
    /// Parse one raw input line into a command.  An empty line always
    /// yields `JumpNext`; every malformed line is a parse error, exactly
    /// when `spec_parse` has no value.
    pub fn parse(s: &str) -> (r: Result<Cmd, Error>)
        ensures
            r is Ok <==> spec_parse(s@) is Some,
            r is Ok ==> Some(r->Ok_0@) == spec_parse(s@),
            r is Err ==> r->Err_0.err_type() is ParseError,
            r is Ok ==> r->Ok_0@.wf(),
            s@.len() == 0 ==> r == Ok::<Cmd, Error>(Cmd::JumpNext),
    {
        proof {
            lemma_parse_wf(s@);
        }
        match ParsedData::parse(s) {
            Ok(pd) => pd.to_cmd(),
            Err(e) => Err(e),
        }
    }
}

} // verus!
