//! Presentation values: the print styles a command may ask for, the events
//! the interpreter consumes, and the pure rendering of addressed lines into
//! the strings a display collaborator shows.
//!
//! Rendering is fully verified: a numbered line is the decimal line number,
//! a tab, and the text; the line-ending style appends an explicit marker.

use vstd::prelude::*;

use crate::buffer::Buffer;
use crate::cmd::Cmd;
use crate::pos::ResolvedRange;

verus! {

/// How `Print` renders the addressed lines.
#[derive(Clone, Copy, Debug, PartialEq, Eq, Structural)]
pub enum PrintOption {
    /// The text of each line, unchanged.
    Normal,
    /// Each line prefixed with its line number and a tab.
    Numbered,
    /// Each line with an explicit end-of-line marker appended.
    LineEndings,
}

/// One event for the interpreter: a parsed command while in command mode,
/// or a raw text line / the end-of-insert signal while in insert mode.
#[derive(Debug)]
pub enum Action {
    Command(Cmd),
    Insert(String),
    InsertEnd,
}

/// The character for one decimal digit value.
pub open spec fn digit_char(d: int) -> char {
    if d == 0 {
        '0'
    } else if d == 1 {
        '1'
    } else if d == 2 {
        '2'
    } else if d == 3 {
        '3'
    } else if d == 4 {
        '4'
    } else if d == 5 {
        '5'
    } else if d == 6 {
        '6'
    } else if d == 7 {
        '7'
    } else if d == 8 {
        '8'
    } else {
        '9'
    }
}

/// The decimal rendering of a non-negative integer, most significant digit
/// first, with no leading zeros (a single `'0'` for zero).
pub open spec fn spec_decimal(n: int) -> Seq<char>
    decreases n,
{
    if n < 10 {
        seq![digit_char(n)]
    } else {
        spec_decimal(n / 10).push(digit_char(n % 10))
    }
}

/// How one line is rendered under a print style: `idx` is its 1-based line
/// number, `line` its text.
pub open spec fn spec_render_line(idx: int, line: Seq<char>, option: PrintOption) -> Seq<char> {
    match option {
        PrintOption::Normal => line,
        PrintOption::Numbered => spec_decimal(idx) + seq!['\t'] + line,
        PrintOption::LineEndings => line.push('$'),
    }
}

/// The rendering of the inclusive 1-based span `start..=end` of `lines`.
pub open spec fn spec_render(
    lines: Seq<Seq<char>>,
    start: int,
    end: int,
    option: PrintOption,
) -> Seq<Seq<char>> {
    Seq::new((end + 1 - start) as nat, |k: int| spec_render_line(start + k, lines[start + k - 1], option))
}

/// The one-character string for a digit value.
fn digit_str(d: usize) -> (r: &'static str)
    requires
        d < 10,
    ensures
        r@ == seq![digit_char(d as int)],
{
    proof {
        reveal_strlit("0");
        reveal_strlit("1");
        reveal_strlit("2");
        reveal_strlit("3");
        reveal_strlit("4");
        reveal_strlit("5");
        reveal_strlit("6");
        reveal_strlit("7");
        reveal_strlit("8");
        reveal_strlit("9");
    }
    let r = if d == 0 {
        "0"
    } else if d == 1 {
        "1"
    } else if d == 2 {
        "2"
    } else if d == 3 {
        "3"
    } else if d == 4 {
        "4"
    } else if d == 5 {
        "5"
    } else if d == 6 {
        "6"
    } else if d == 7 {
        "7"
    } else if d == 8 {
        "8"
    } else {
        "9"
    };
    proof {
        assert(r@ =~= seq![digit_char(d as int)]);
    }
    r
}

/// Render a line number (or any count) in decimal.
pub fn usize_to_string(n: usize) -> (r: String)
    ensures
        r@ == spec_decimal(n as int),
    decreases n,
{
    if n < 10 {
        String::from_str(digit_str(n))
    } else {
        let mut s = usize_to_string(n / 10);
        s.append(digit_str(n % 10));
        proof {
            assert(s@ =~= spec_decimal(n as int));
        }
        s
    }
}

/// Render one line of the store under a print style.
fn render_line(buf: &Buffer, idx: usize, option: PrintOption) -> (r: String)
    requires
        1 <= idx <= buf@.len(),
    ensures
        r@ == spec_render_line(idx as int, buf@[idx - 1], option),
{
    proof {
        reveal_strlit("\t");
        reveal_strlit("$");
    }
    match option {
        PrintOption::Normal => buf.line(idx).clone(),
        PrintOption::Numbered => {
            let mut s = usize_to_string(idx);
            s.append("\t");
            s.append(buf.line(idx).as_str());
            proof {
                assert(s@ =~= spec_render_line(idx as int, buf@[idx - 1], option));
            }
            s
        },
        PrintOption::LineEndings => {
            let mut s = buf.line(idx).clone();
            s.append("$");
            proof {
                assert(s@ =~= spec_render_line(idx as int, buf@[idx - 1], option));
            }
            s
        },
    }
}

/// Render the resolved span of lines under a print style, one output string
/// per addressed line, in order.
pub fn render_range(buf: &Buffer, range: &ResolvedRange, option: PrintOption) -> (r: Vec<String>)
    requires
        1 <= range.start <= range.end <= buf@.len(),
    ensures
        r.deep_view() == spec_render(buf@, range.start as int, range.end as int, option),
{
    let count = range.end - range.start + 1;
    let mut out: Vec<String> = Vec::new();
    let mut k: usize = 0;
    proof {
        assert(out.deep_view() =~= spec_render(buf@, range.start as int, (range.start - 1) as int, option));
    }
    while k < count
        invariant
            0 <= k <= count,
            count == range.end - range.start + 1,
            1 <= range.start <= range.end <= buf@.len(),
            out@.len() == k,
            out.deep_view() == spec_render(
                buf@,
                range.start as int,
                range.start + k - 1,
                option,
            ),
        decreases count - k,
    {
        let idx = range.start + k;
        let ghost pre: Seq<String> = out@;
        let ghost pre_dv: Seq<Seq<char>> = out.deep_view();
        out.push(render_line(buf, idx, option));
        proof {
            let target = spec_render(buf@, range.start as int, idx as int, option);
            assert forall|k2: int| 0 <= k2 < out@.len() implies out.deep_view()[k2] == target[k2] by {
                if k2 < pre.len() {
                    assert(out@[k2] == pre[k2]);
                    assert(pre_dv[k2] == spec_render_line(
                        range.start + k2,
                        buf@[range.start + k2 - 1],
                        option,
                    ));
                }
            }
            assert(out.deep_view() =~= target);
        }
        k = k + 1;
    }
    out
}

} // verus!
