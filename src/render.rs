use vstd::prelude::*;
use crate::editor::Editor;

verus! {

/// Width of the gutter before each line's text: a line number right-aligned
/// in three columns, then three spaces.
pub const GUTTER_WIDTH: u16 = 6;

/// The digit character for `d < 10`.
pub open spec fn digit(d: nat) -> char {
    if d == 0 { '0' }
    else if d == 1 { '1' }
    else if d == 2 { '2' }
    else if d == 3 { '3' }
    else if d == 4 { '4' }
    else if d == 5 { '5' }
    else if d == 6 { '6' }
    else if d == 7 { '7' }
    else if d == 8 { '8' }
    else { '9' }
}

/// The decimal digits of `n`, most significant first, without leading zeros.
pub open spec fn decimal(n: nat) -> Seq<char>
    decreases n,
{
    if n < 10 {
        seq![digit(n)]
    } else {
        decimal(n / 10).push(digit(n % 10))
    }
}

/// `s` right-aligned in `width` columns with spaces; unchanged when longer.
pub open spec fn pad_left(s: Seq<char>, width: nat) -> Seq<char> {
    if s.len() >= width {
        s
    } else {
        Seq::new((width - s.len()) as nat, |i: int| ' ') + s
    }
}

/// The gutter label of line number `n`.
pub open spec fn label(n: nat) -> Seq<char> {
    pad_left(decimal(n), 3) + seq![' ', ' ', ' ']
}

/// Whether `c` is white space in Unicode's sense.
pub uninterp spec fn white_space(c: char) -> bool;

/// `s` without its leading white space.
pub open spec fn trim_start(s: Seq<char>) -> Seq<char>
    decreases s.len(),
{
    if s.len() > 0 && white_space(s[0]) {
        trim_start(s.drop_first())
    } else {
        s
    }
}

/// A line is a comment when, after its leading white space, it starts with `//`.
pub open spec fn is_comment_line(s: Seq<char>) -> bool {
    let t = trim_start(s);
    t.len() >= 2 && t[0] == '/' && t[1] == '/'
}

/// What the screen shows of one line of the buffer.
pub struct Row {
    pub label: Vec<char>,
    pub text: Vec<char>,
    pub comment: bool,
}

/// Relies on char::is_whitespace: whether the character has Unicode's
/// White_Space property, a function of the character alone.
#[verifier::external_body]
fn is_white_space(c: char) -> (r: bool)
    ensures
        r == white_space(c),
{
    c.is_whitespace()
}

fn digit_char(d: usize) -> (r: char)
    requires
        d < 10,
    ensures
        r == digit(d as nat),
{
    match d {
        0 => '0',
        1 => '1',
        2 => '2',
        3 => '3',
        4 => '4',
        5 => '5',
        6 => '6',
        7 => '7',
        8 => '8',
        _ => '9',
    }
}

fn push_decimal(n: usize, out: &mut Vec<char>)
    ensures
        final(out)@ == old(out)@ + decimal(n as nat),
    decreases n,
{
    if n >= 10 {
        push_decimal(n / 10, out);
    }
    out.push(digit_char(n % 10));
    assert(final(out)@ =~= old(out)@ + decimal(n as nat)) by {
        if n >= 10 {
            assert(decimal(n as nat) == decimal((n / 10) as nat).push(digit((n % 10) as nat)));
        }
    }
}

/// The gutter label of line number `n`: the number right-aligned in three
/// columns, then three spaces.
pub fn line_label(n: usize) -> (r: Vec<char>)
    ensures
        r@ == label(n as nat),
{
    let mut digits: Vec<char> = Vec::new();
    push_decimal(n, &mut digits);
    let mut out: Vec<char> = Vec::new();
    let len = digits.len();
    let mut i: usize = len;
    while i < 3
        invariant
            len <= i <= 3 || (len > 3 && i == len),
            out@ =~= Seq::new((i - len) as nat, |k: int| ' '),
            digits@ == decimal(n as nat),
            len == digits@.len(),
        decreases 3 - i,
    {
        out.push(' ');
        i = i + 1;
    }
    out.append(&mut digits);
    out.push(' ');
    out.push(' ');
    out.push(' ');
    assert(out@ =~= label(n as nat));
    out
}

/// Whether `line`, after its leading white space, starts with `//`.
pub fn is_comment(line: &Vec<char>) -> (r: bool)
    ensures
        r == is_comment_line(line@),
{
    let mut i: usize = 0;
    assert(line@.subrange(0, line@.len() as int) =~= line@);
    while i < line.len() && is_white_space(line[i])
        invariant
            i <= line@.len(),
            trim_start(line@) == trim_start(line@.subrange(i as int, line@.len() as int)),
        decreases line@.len() - i,
    {
        assert(line@.subrange(i as int, line@.len() as int).drop_first()
            =~= line@.subrange(i + 1, line@.len() as int));
        i = i + 1;
    }
    let ghost rest = line@.subrange(i as int, line@.len() as int);
    assert(trim_start(rest) == rest);
    line.len() - i >= 2 && line[i] == '/' && line[i + 1] == '/'
}

impl Editor {
    /// Screen position of the cursor in an area whose top-left corner is at
    /// (`area_x`, `area_y`): past the gutter, at the cursor's column and row.
    /// `None` when that position does not fit in screen coordinates.
    pub fn cursor_position(&self, area_x: u16, area_y: u16) -> (r: Option<(u16, u16)>)
        ensures
            ({
                let x = area_x + GUTTER_WIDTH + self.cursor_x;
                let y = area_y + self.cursor_y;
                if x <= u16::MAX && y <= u16::MAX {
                    r == Some((x as u16, y as u16))
                } else {
                    r is None
                }
            }),
    {
        let x = area_x as usize + GUTTER_WIDTH as usize;
        if x > u16::MAX as usize || self.cursor_x > u16::MAX as usize - x || self.cursor_y > u16::MAX as usize - area_y as usize {
            None
        } else {
            Some(((x + self.cursor_x) as u16, (area_y as usize + self.cursor_y) as u16))
        }
    }

    /// One row per line, in order: its 1-based line number's label, its text,
    /// and whether it is a comment.
    pub fn rows(&self) -> (r: Vec<Row>)
        ensures
            r@.len() == self.lines@.len(),
            forall|i: int|
                0 <= i < r@.len() ==> {
                    &&& (#[trigger] r@[i]).label@ == label((i + 1) as nat)
                    &&& r@[i].text@ == self.lines@[i]@
                    &&& r@[i].comment == is_comment_line(self.lines@[i]@)
                },
    {
        let mut out: Vec<Row> = Vec::new();
        let mut i: usize = 0;
        while i < self.lines.len()
            invariant
                i <= self.lines@.len(),
                out@.len() == i,
                forall|k: int|
                    0 <= k < i ==> {
                        &&& (#[trigger] out@[k]).label@ == label((k + 1) as nat)
                        &&& out@[k].text@ == self.lines@[k]@
                        &&& out@[k].comment == is_comment_line(self.lines@[k]@)
                    },
            decreases self.lines@.len() - i,
        {
            let line = &self.lines[i];
            let text = line.clone();
            assert(text@ =~= line@);
            out.push(Row { label: line_label(i + 1), text, comment: is_comment(line) });
            i = i + 1;
        }
        out
    }
}

} // verus!
