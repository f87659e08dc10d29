use vstd::prelude::*;
use crate::command::{Command, Key, edit_command, edit_command_of};

verus! {

/// The mathematical state of a text buffer: its lines and a cursor at
/// (`col`, `row`).
pub struct Model {
    pub lines: Seq<Seq<char>>,
    pub col: int,
    pub row: int,
}

impl Model {
    /// The buffer holds at least one line and the cursor is at a valid
    /// insertion point.
    pub open spec fn wf(self) -> bool {
        &&& self.lines.len() >= 1
        &&& 0 <= self.row < self.lines.len()
        &&& 0 <= self.col <= self.lines[self.row].len()
    }

    pub open spec fn current(self) -> Seq<char> {
        self.lines[self.row]
    }

    pub open spec fn empty() -> Model {
        Model { lines: seq![Seq::<char>::empty()], col: 0, row: 0 }
    }

    pub open spec fn insert_char(self, c: char) -> Model {
        Model {
            lines: self.lines.update(self.row, self.current().insert(self.col, c)),
            col: self.col + 1,
            row: self.row,
        }
    }

    pub open spec fn delete_backward(self) -> Model {
        if self.col > 0 {
            Model {
                lines: self.lines.update(self.row, self.current().remove(self.col - 1)),
                col: self.col - 1,
                row: self.row,
            }
        } else if self.row > 0 {
            let prev = self.lines[self.row - 1];
            Model {
                lines: self.lines.update(self.row - 1, prev + self.current()).remove(self.row),
                col: prev.len() as int,
                row: self.row - 1,
            }
        } else {
            self
        }
    }

    pub open spec fn split_line(self) -> Model {
        let line = self.current();
        Model {
            lines: self.lines.update(self.row, line.subrange(0, self.col)).insert(
                self.row + 1,
                line.subrange(self.col, line.len() as int),
            ),
            col: 0,
            row: self.row + 1,
        }
    }

    pub open spec fn move_left(self) -> Model {
        if self.col > 0 {
            Model { col: self.col - 1, ..self }
        } else {
            self
        }
    }

    pub open spec fn move_right(self) -> Model {
        if self.col < self.current().len() {
            Model { col: self.col + 1, ..self }
        } else {
            self
        }
    }

    pub open spec fn move_up(self) -> Model {
        if self.row > 0 {
            Model { col: min(self.col, self.lines[self.row - 1].len() as int), row: self.row - 1, ..self }
        } else {
            self
        }
    }

    pub open spec fn move_down(self) -> Model {
        if self.row + 1 < self.lines.len() {
            Model { col: min(self.col, self.lines[self.row + 1].len() as int), row: self.row + 1, ..self }
        } else {
            self
        }
    }

    pub open spec fn apply(self, cmd: Command) -> Model {
        match cmd {
            Command::Insert(c) => self.insert_char(c),
            Command::DeleteBackward => self.delete_backward(),
            Command::SplitLine => self.split_line(),
            Command::MoveLeft => self.move_left(),
            Command::MoveRight => self.move_right(),
            Command::MoveUp => self.move_up(),
            Command::MoveDown => self.move_down(),
            Command::Quit | Command::Ignored => self,
        }
    }

    /// The state reached from `self` by applying `cmds` in order.
    pub open spec fn replay(self, cmds: Seq<Command>) -> Model
        decreases cmds.len(),
    {
        if cmds.len() == 0 {
            self
        } else {
            self.apply(cmds[0]).replay(cmds.drop_first())
        }
    }
}

/// `n` copies of one command.
pub open spec fn repeated(cmd: Command, n: nat) -> Seq<Command> {
    Seq::new(n, |i: int| cmd)
}

/// Every command keeps a valid state valid: the cursor stays on an existing
/// line, at a column no larger than that line's length.
pub proof fn lemma_apply_keeps_wf(m: Model, cmd: Command)
    requires
        m.wf(),
    ensures
        m.apply(cmd).wf(),
{
}

/// Every state reached from a valid state by a sequence of commands is valid;
/// in particular every state reached from the empty buffer.
pub proof fn lemma_reachable_wf(m: Model, cmds: Seq<Command>)
    requires
        m.wf(),
    ensures
        m.replay(cmds).wf(),
        Model::empty().replay(cmds).wf(),
    decreases cmds.len(),
{
    if cmds.len() > 0 {
        lemma_apply_keeps_wf(m, cmds[0]);
        lemma_reachable_wf(m.apply(cmds[0]), cmds.drop_first());
        lemma_apply_keeps_wf(Model::empty(), cmds[0]);
        lemma_reachable_wf(Model::empty().apply(cmds[0]), cmds.drop_first());
    }
}

/// A state that a command leaves unchanged stays unchanged by any number of
/// repetitions of that command.
pub proof fn lemma_fixed_point_repeated(m: Model, cmd: Command, n: nat)
    requires
        m.apply(cmd) == m,
    ensures
        m.replay(repeated(cmd, n)) == m,
    decreases n,
{
    if n > 0 {
        assert(repeated(cmd, n).drop_first() =~= repeated(cmd, (n - 1) as nat));
        lemma_fixed_point_repeated(m, cmd, (n - 1) as nat);
    }
}

/// Moving left at the start of a line, right at its end, up on the first line
/// or down on the last line changes nothing, however often it is repeated.
pub proof fn lemma_moves_stop_at_bounds(m: Model, n: nat)
    requires
        m.wf(),
    ensures
        m.col == 0 ==> m.replay(repeated(Command::MoveLeft, n)) == m,
        m.col == m.current().len() ==> m.replay(repeated(Command::MoveRight, n)) == m,
        m.row == 0 ==> m.replay(repeated(Command::MoveUp, n)) == m,
        m.row == m.lines.len() - 1 ==> m.replay(repeated(Command::MoveDown, n)) == m,
{
    if m.col == 0 {
        lemma_fixed_point_repeated(m, Command::MoveLeft, n);
    }
    if m.col == m.current().len() {
        lemma_fixed_point_repeated(m, Command::MoveRight, n);
    }
    if m.row == 0 {
        lemma_fixed_point_repeated(m, Command::MoveUp, n);
    }
    if m.row == m.lines.len() - 1 {
        lemma_fixed_point_repeated(m, Command::MoveDown, n);
    }
}

/// Splitting the current line and then deleting backward restores the text
/// and the cursor.
pub proof fn lemma_split_then_delete(m: Model)
    requires
        m.wf(),
    ensures
        m.split_line().delete_backward() == m,
{
    let line = m.current();
    let s = m.split_line();
    let d = s.delete_backward();
    assert(s.lines[m.row] == line.subrange(0, m.col));
    assert(line.subrange(0, m.col) + line.subrange(m.col, line.len() as int) =~= line);
    assert(d.lines =~= m.lines);
}

/// Inserting a character and then deleting backward restores the text and the
/// cursor.
pub proof fn lemma_insert_then_delete(m: Model, c: char)
    requires
        m.wf(),
    ensures
        m.insert_char(c).delete_backward() == m,
{
    let line = m.current();
    assert(line.insert(m.col, c).remove(m.col) =~= line);
    assert(m.insert_char(c).delete_backward().lines =~= m.lines);
}

pub open spec fn min(a: int, b: int) -> int {
    if a <= b { a } else { b }
}

/// A text buffer: an ordered sequence of lines, each a sequence of
/// characters, and a cursor at column `cursor_x` of line `cursor_y`.
pub struct Editor {
    pub lines: Vec<Vec<char>>,
    pub cursor_x: usize,
    pub cursor_y: usize,
}

impl View for Editor {
    type V = Model;

    open spec fn view(&self) -> Model {
        Model {
            lines: self.lines@.map_values(|l: Vec<char>| l@),
            col: self.cursor_x as int,
            row: self.cursor_y as int,
        }
    }
}

impl Default for Editor {
    fn default() -> (r: Editor)
        ensures
            r@ == Model::empty(),
    {
        Editor::new()
    }
}

impl Editor {
    pub open spec fn wf(&self) -> bool {
        self@.wf()
    }

    /// An empty buffer: one empty line, cursor at the start.
    pub fn new() -> (r: Editor)
        ensures
            r@ == Model::empty(),
            r.wf(),
    {
        let mut lines: Vec<Vec<char>> = Vec::new();
        lines.push(Vec::new());
        let r = Editor { lines, cursor_x: 0, cursor_y: 0 };
        assert(r@.lines =~= Model::empty().lines);
        r
    }

    /// Inserts `c` at the cursor and moves the cursor past it.
    pub fn insert_char(&mut self, c: char)
        requires
            old(self).wf(),
        ensures
            final(self)@ == old(self)@.insert_char(c),
            final(self).wf(),
    {
        let y = self.cursor_y;
        let mut line = self.lines.remove(y);
        line.insert(self.cursor_x, c);
        let n = line.len();
        self.lines.insert(y, line);
        self.cursor_x = self.cursor_x + 1;
        assert(self@.lines =~= old(self)@.lines.update(y as int, old(self)@.current().insert(old(self).cursor_x as int, c)));
    }

    /// Deletes the character before the cursor; at the start of a line other
    /// than the first, joins the line onto the end of the previous one.
    pub fn delete_backward(&mut self)
        requires
            old(self).wf(),
        ensures
            final(self)@ == old(self)@.delete_backward(),
            final(self).wf(),
    {
        if self.cursor_x > 0 {
            let y = self.cursor_y;
            self.cursor_x = self.cursor_x - 1;
            let mut line = self.lines.remove(y);
            line.remove(self.cursor_x);
            self.lines.insert(y, line);
            assert(self@.lines =~= old(self)@.delete_backward().lines);
        } else if self.cursor_y > 0 {
            let y = self.cursor_y;
            let mut current = self.lines.remove(y);
            let mut prev = self.lines.remove(y - 1);
            let prev_len = prev.len();
            prev.append(&mut current);
            self.lines.insert(y - 1, prev);
            self.cursor_y = y - 1;
            self.cursor_x = prev_len;
            assert(self@.lines =~= old(self)@.delete_backward().lines);
        }
    }

    /// Splits the current line at the cursor; the part after the cursor
    /// becomes a new line below, and the cursor moves to its start.
    pub fn split_line(&mut self)
        requires
            old(self).wf(),
        ensures
            final(self)@ == old(self)@.split_line(),
            final(self).wf(),
    {
        let y = self.cursor_y;
        let mut line = self.lines.remove(y);
        let rest = line.split_off(self.cursor_x);
        self.lines.insert(y, line);
        assert(y < self.lines.len());
        self.lines.insert(y + 1, rest);
        self.cursor_y = y + 1;
        self.cursor_x = 0;
        assert(self@.lines =~= old(self)@.split_line().lines);
    }

    /// Moves the cursor one column left, staying on the current line.
    pub fn move_left(&mut self)
        requires
            old(self).wf(),
        ensures
            final(self)@ == old(self)@.move_left(),
            final(self).wf(),
    {
        if self.cursor_x > 0 {
            self.cursor_x = self.cursor_x - 1;
        }
    }

    /// Moves the cursor one column right, staying on the current line.
    pub fn move_right(&mut self)
        requires
            old(self).wf(),
        ensures
            final(self)@ == old(self)@.move_right(),
            final(self).wf(),
    {
        if self.cursor_x < self.lines[self.cursor_y].len() {
            self.cursor_x = self.cursor_x + 1;
        }
    }

    /// Moves the cursor one line up, clamping the column to that line.
    pub fn move_up(&mut self)
        requires
            old(self).wf(),
        ensures
            final(self)@ == old(self)@.move_up(),
            final(self).wf(),
    {
        if self.cursor_y > 0 {
            self.cursor_y = self.cursor_y - 1;
            let len = self.lines[self.cursor_y].len();
            if len < self.cursor_x {
                self.cursor_x = len;
            }
        }
    }

    /// Moves the cursor one line down, clamping the column to that line.
    pub fn move_down(&mut self)
        requires
            old(self).wf(),
        ensures
            final(self)@ == old(self)@.move_down(),
            final(self).wf(),
    {
        if self.cursor_y < self.lines.len() - 1 {
            self.cursor_y = self.cursor_y + 1;
            let len = self.lines[self.cursor_y].len();
            if len < self.cursor_x {
                self.cursor_x = len;
            }
        }
    }

    /// Applies one editing command. `Quit` and `Ignored` leave the buffer as
    /// it is.
    pub fn apply(&mut self, cmd: Command)
        requires
            old(self).wf(),
        ensures
            final(self)@ == old(self)@.apply(cmd),
            final(self).wf(),
    {
        match cmd {
            Command::Insert(c) => self.insert_char(c),
            Command::DeleteBackward => self.delete_backward(),
            Command::SplitLine => self.split_line(),
            Command::MoveLeft => self.move_left(),
            Command::MoveRight => self.move_right(),
            Command::MoveUp => self.move_up(),
            Command::MoveDown => self.move_down(),
            Command::Quit | Command::Ignored => {},
        }
    }

    /// Applies the editing command that `key` stands for.
    pub fn handle_key(&mut self, key: Key)
        requires
            old(self).wf(),
        ensures
            final(self)@ == old(self)@.apply(edit_command(key)),
            final(self).wf(),
    {
        self.apply(edit_command_of(key));
    }
}

} // verus!
