//! The document and its rendering: [`Buffer`] owns the text as a
//! sequence of lines; the view maps it onto the terminal through the
//! command queue.

use vstd::prelude::*;
use vstd::view::View as VstdView;

use crate::editor::Location;
use crate::terminal::CmdSpec;
use crate::terminal::Position;
use crate::terminal::Size;
use crate::terminal::Terminal;

verus! {

/// Relies on String::push: appends the one character `ch` at the end of
/// the string.
#[verifier::external_body]
fn push_char(s: &mut String, ch: char)
    ensures
        final(s)@ == old(s)@.push(ch),
{
    s.push(ch)
}

/// The document after one character is inserted at `at`: on an empty
/// document the character becomes the first line; otherwise it enters
/// line `at.y` before column `at.x`.
pub open spec fn spec_insert_char(lines: Seq<Seq<char>>, at: Location, ch: char) -> Seq<Seq<char>> {
    if lines.len() == 0 {
        seq![seq![ch]]
    } else {
        lines.update(at.y as int, lines[at.y as int].insert(at.x as int, ch))
    }
}

/// The document after a delete-before at `at`: inside a line the
/// character before the column goes; at column 0 the line joins its
/// predecessor; at the document start nothing changes.
pub open spec fn spec_delete_before(lines: Seq<Seq<char>>, at: Location) -> Seq<Seq<char>> {
    if at.x > 0 {
        lines.update(at.y as int, lines[at.y as int].remove(at.x - 1))
    } else if at.y > 0 {
        lines.update(at.y as int - 1, lines[at.y as int - 1] + lines[at.y as int]).remove(at.y as int)
    } else {
        lines
    }
}

/// The document after the line at `at` is split at its column: the line
/// keeps the part before the column, and a new line with the rest
/// follows it. Splitting the empty document gives two empty lines.
pub open spec fn spec_split_line(lines: Seq<Seq<char>>, at: Location) -> Seq<Seq<char>> {
    if lines.len() == 0 {
        seq![Seq::<char>::empty(), Seq::<char>::empty()]
    } else {
        lines.update(at.y as int, lines[at.y as int].take(at.x as int)).insert(
            at.y as int + 1,
            lines[at.y as int].skip(at.x as int),
        )
    }
}

/// Error of a buffer operation given a position outside the document.
#[derive(Debug, Clone, Copy, PartialEq, Eq, Structural)]
pub enum BufferError {
    OutOfBounds,
}

/// The open document: an ordered sequence of lines, each without a
/// trailing newline. A brand-new document has zero lines.
#[derive(Debug)]
pub struct Buffer {
    pub lines: Vec<String>,
}

impl VstdView for Buffer {
    type V = Seq<Seq<char>>;

    open spec fn view(&self) -> Seq<Seq<char>> {
        self.lines.deep_view()
    }
}

impl Default for Buffer {
    /// An empty document.
    fn default() -> (b: Buffer)
        ensures
            b@ == Seq::<Seq<char>>::empty(),
    {
        let b = Buffer { lines: Vec::new() };
        proof {
            assert(b@ =~= Seq::<Seq<char>>::empty());
        }
        b
    }
}

impl Buffer {
    /// How many lines the document has.
    pub fn line_count(&self) -> (n: usize)
        ensures
            n == self@.len(),
    {
        self.lines.len()
    }

    /// Whether the document has no lines at all.
    pub fn is_empty(&self) -> (r: bool)
        ensures
            r == (self@.len() == 0),
    {
        self.lines.len() == 0
    }

    /// The line at `index`, or `None` past the end of the document.
    pub fn line_at(&self, index: usize) -> (r: Option<&String>)
        ensures
            index < self@.len() ==> (r matches Some(line) && line@ == self@[index as int]),
            index >= self@.len() ==> r is None,
    {
        if index < self.lines.len() {
            Some(&self.lines[index])
        } else {
            None
        }
    }

    /// The character length of the line at `index`.
    pub fn line_length(&self, index: usize) -> (n: usize)
        requires
            index < self@.len(),
        ensures
            n == self@[index as int].len(),
    {
        self.lines[index].as_str().unicode_len()
    }

    /// Append one line at the end of the document.
    pub fn append_line(&mut self, text: String)
        ensures
            final(self)@ == old(self)@.push(text@),
    {
        let ghost t = text@;
        self.lines.push(text);
        proof {
            assert(final(self)@ =~= old(self)@.push(t));
        }
    }

    /// Whether `at` is a position the cursor may occupy: on an empty
    /// document only the origin; otherwise any existing line, with the
    /// column at most that line's length (one past the last character).
    pub open spec fn pos_valid(self, at: Location) -> bool {
        if self@.len() == 0 {
            at.x == 0 && at.y == 0
        } else {
            at.y < self@.len() && at.x <= self@[at.y as int].len()
        }
    }

    /// Whether `at` is a valid cursor position, decided at run time.
    pub fn check_pos(&self, at: Location) -> (r: bool)
        ensures
            r == self.pos_valid(at),
    {
        if self.lines.len() == 0 {
            at.x == 0 && at.y == 0
        } else {
            at.y < self.lines.len() && at.x <= self.line_length(at.y)
        }
    }

    /// Insert one character at `at`. Positions outside the document are
    /// rejected; nothing changes then.
    pub fn insert_char(&mut self, at: Location, ch: char) -> (r: Result<(), BufferError>)
        ensures
            r is Ok <==> old(self).pos_valid(at),
            old(self).pos_valid(at) ==> final(self)@ == spec_insert_char(old(self)@, at, ch),
            !old(self).pos_valid(at) ==> final(self)@ == old(self)@ && r == Err::<(),
                BufferError,
            >(BufferError::OutOfBounds),
    {
        if !self.check_pos(at) {
            return Err(BufferError::OutOfBounds);
        }
        if self.lines.len() == 0 {
            let mut line = String::new();
            push_char(&mut line, ch);
            self.lines.push(line);
            proof {
                assert(final(self)@ =~~= spec_insert_char(old(self)@, at, ch));
            }
        } else {
            let n = self.line_length(at.y);
            let line_ref = &self.lines[at.y];
            let mut new_line = line_ref.as_str().substring_char(0, at.x).to_owned();
            push_char(&mut new_line, ch);
            let right = line_ref.as_str().substring_char(at.x, n);
            new_line.append(right);
            proof {
                assert(new_line@ =~= old(self)@[at.y as int].insert(at.x as int, ch));
            }
            self.lines[at.y] = new_line;
            proof {
                assert(final(self)@ =~~= spec_insert_char(old(self)@, at, ch));
            }
        }
        Ok(())
    }

    /// Delete the character before `at`, per the delete-before rules:
    /// inside a line the character goes and the position steps left; at
    /// column 0 the line joins its predecessor and the position lands at
    /// the join point; at the document start nothing changes. The new
    /// cursor position is returned.
    pub fn delete_char_before(&mut self, at: Location) -> (r: Result<Location, BufferError>)
        ensures
            r is Ok <==> old(self).pos_valid(at),
            !old(self).pos_valid(at) ==> final(self)@ == old(self)@ && r == Err::<Location,
                BufferError,
            >(BufferError::OutOfBounds),
            old(self).pos_valid(at) ==> final(self)@ == spec_delete_before(old(self)@, at),
            old(self).pos_valid(at) && at.x > 0 ==> (r matches Ok(p) && p.x + 1 == at.x && p.y
                == at.y),
            old(self).pos_valid(at) && at.x == 0 && at.y > 0 ==> (r matches Ok(p) && p.y + 1
                == at.y && p.x == old(self)@[at.y as int - 1].len()),
            old(self).pos_valid(at) && at.x == 0 && at.y == 0 ==> (r matches Ok(p) && p == at),
    {
        if !self.check_pos(at) {
            return Err(BufferError::OutOfBounds);
        }
        if at.x > 0 {
            let n = self.line_length(at.y);
            let line_ref = &self.lines[at.y];
            let mut new_line = line_ref.as_str().substring_char(0, at.x - 1).to_owned();
            let right = line_ref.as_str().substring_char(at.x, n);
            new_line.append(right);
            proof {
                assert(new_line@ =~= old(self)@[at.y as int].remove(at.x - 1));
            }
            self.lines[at.y] = new_line;
            proof {
                assert(final(self)@ =~~= spec_delete_before(old(self)@, at));
            }
            Ok(Location { x: at.x - 1, y: at.y })
        } else if at.y > 0 {
            let prev_len = self.line_length(at.y - 1);
            let cur = self.lines.remove(at.y);
            let mut joined = self.lines[at.y - 1].clone();
            joined.append(cur.as_str());
            self.lines[at.y - 1] = joined;
            proof {
                assert(final(self)@ =~~= spec_delete_before(old(self)@, at));
            }
            Ok(Location { x: prev_len, y: at.y - 1 })
        } else {
            Ok(at)
        }
    }

    /// Split the line at `at` into the part before the column and the
    /// part from the column on; the second part becomes a new line right
    /// after the first.
    pub fn split_line(&mut self, at: Location) -> (r: Result<(), BufferError>)
        ensures
            r is Ok <==> old(self).pos_valid(at),
            old(self).pos_valid(at) ==> final(self)@ == spec_split_line(old(self)@, at),
            !old(self).pos_valid(at) ==> final(self)@ == old(self)@ && r == Err::<(),
                BufferError,
            >(BufferError::OutOfBounds),
    {
        if !self.check_pos(at) {
            return Err(BufferError::OutOfBounds);
        }
        if self.lines.len() == 0 {
            self.lines.push(String::new());
            self.lines.push(String::new());
            proof {
                assert(final(self)@ =~~= spec_split_line(old(self)@, at));
            }
        } else {
            let n = self.line_length(at.y);
            let line_ref = &self.lines[at.y];
            let left = line_ref.as_str().substring_char(0, at.x).to_owned();
            let right = line_ref.as_str().substring_char(at.x, n).to_owned();
            self.lines[at.y] = left;
            self.lines.insert(at.y + 1, right);
            proof {
                assert(final(self)@ =~~= spec_split_line(old(self)@, at));
            }
        }
        Ok(())
    }
}

/// The tilde marker written on a row past the end of the document.
pub open spec fn tilde_marker() -> Seq<char> {
    "~"@
}

/// The title shown centred on the welcome screen of an empty document.
pub open spec fn welcome_message() -> Seq<char> {
    "welcome use draft!"@
}

/// What a physical row shows: the buffer line the scroll offset maps it
/// to, or the tilde marker past the end of the document.
pub open spec fn spec_row_text(lines: Seq<Seq<char>>, scroll: int, row: int) -> Seq<char> {
    if 0 <= scroll + row < lines.len() {
        lines[scroll + row]
    } else {
        tilde_marker()
    }
}

/// The commands that draw one physical row: move there, clear it, write
/// its text.
pub open spec fn spec_row_cmds(lines: Seq<Seq<char>>, scroll: int, row: int) -> Seq<CmdSpec> {
    seq![
        CmdSpec::MoveTo(0, row as u16),
        CmdSpec::ClearToLineEnd,
        CmdSpec::Write(spec_row_text(lines, scroll, row)),
    ]
}

/// The commands that draw the first `nrows` physical rows, top down.
pub open spec fn spec_rows_cmds(lines: Seq<Seq<char>>, scroll: int, nrows: int) -> Seq<CmdSpec>
    decreases nrows,
{
    if nrows <= 0 {
        Seq::empty()
    } else {
        spec_rows_cmds(lines, scroll, nrows - 1) + spec_row_cmds(lines, scroll, nrows - 1)
    }
}

/// The commands that overlay the welcome title, centred at mid-height;
/// nothing when the title does not fit or the screen has no rows.
pub open spec fn spec_welcome_cmds(size: Size) -> Seq<CmdSpec> {
    if welcome_message().len() <= size.width && size.height > 0 {
        seq![
            CmdSpec::MoveTo(((size.width - welcome_message().len()) / 2) as u16, size.height / 2),
            CmdSpec::Write(welcome_message()),
        ]
    } else {
        Seq::empty()
    }
}

/// A column index on the screen: the buffer column, saturated at the
/// widest screen coordinate.
pub open spec fn spec_col_u16(x: usize) -> u16 {
    if x > u16::MAX {
        u16::MAX
    } else {
        x as u16
    }
}

/// The visible window of the buffer on the terminal grid.
///
/// `scroll_row_offset` is the buffer line shown on the top row;
/// `redraw` says whether the screen must be repainted before the next
/// input wait; `gen_default` says the document came up empty, so the
/// welcome screen stands in for content.
pub struct View {
    pub buffer: Buffer,
    pub gen_default: bool,
    pub size: Size,
    pub redraw: bool,
    pub scroll_row_offset: usize,
}

/// Every command a full redraw of view `v` emits, in order.
pub open spec fn spec_render_cmds(v: View) -> Seq<CmdSpec> {
    spec_rows_cmds(v.buffer@, v.scroll_row_offset as int, v.size.height as int) + if v.buffer@.len()
        == 0 {
        spec_welcome_cmds(v.size)
    } else {
        Seq::empty()
    }
}

/// Every command a screen refresh of view `v` with the cursor at `caret`
/// emits: when a repaint is due, home the caret and redraw every row;
/// either way, put the caret on the cursor's cell. A pure cursor move
/// within the window thus costs one caret move, no content redraw.
pub open spec fn spec_refresh_cmds(v: View, caret: Location) -> Seq<CmdSpec> {
    (if v.redraw {
        seq![CmdSpec::MoveTo(0, 0)] + spec_render_cmds(v)
    } else {
        Seq::<CmdSpec>::empty()
    }) + seq![
        CmdSpec::MoveTo(spec_col_u16(caret.x), ((caret.y - v.scroll_row_offset) as usize) as u16),
    ]
}

/// Refreshing twice from the same document, cursor and viewport emits
/// the same commands: what is drawn is a function of that state alone,
/// whatever each terminal's queue already held.
pub proof fn lemma_refresh_deterministic(
    base1: Seq<CmdSpec>,
    base2: Seq<CmdSpec>,
    v: View,
    caret: Location,
)
    ensures
        (base1 + spec_refresh_cmds(v, caret)).skip(base1.len() as int) == (base2
            + spec_refresh_cmds(v, caret)).skip(base2.len() as int),
{
    assert((base1 + spec_refresh_cmds(v, caret)).skip(base1.len() as int) =~= spec_refresh_cmds(
        v,
        caret,
    ));
    assert((base2 + spec_refresh_cmds(v, caret)).skip(base2.len() as int) =~= spec_refresh_cmds(
        v,
        caret,
    ));
}

impl Default for View {
    /// An empty document on a screen of unknown size, awaiting a first
    /// paint.
    fn default() -> (v: View)
        ensures
            v.buffer@ == Seq::<Seq<char>>::empty(),
            v.gen_default == false,
            v.size == (Size { width: 0, height: 0 }),
            v.redraw == true,
            v.scroll_row_offset == 0,
    {
        View {
            buffer: Buffer::default(),
            gen_default: false,
            size: Size::default(),
            redraw: true,
            scroll_row_offset: 0,
        }
    }
}

impl View {
    /// Whether the cursor sits inside the visible window: at or below
    /// the top row, and above the bottom edge. On a screen with no rows
    /// the window degenerates to the scroll position itself.
    pub open spec fn caret_in_window(self, caret: Location) -> bool {
        &&& self.scroll_row_offset <= caret.y
        &&& (self.size.height > 0 ==> caret.y - self.scroll_row_offset < self.size.height)
        &&& (self.size.height == 0 ==> caret.y == self.scroll_row_offset)
    }

    /// Draw one physical row: move to its start, clear it, write `line_text`.
    pub fn render_line(terminal: &mut Terminal, at: u16, line_text: &str)
        ensures
            final(terminal)@ == old(terminal)@ + seq![
                CmdSpec::MoveTo(0, at),
                CmdSpec::ClearToLineEnd,
                CmdSpec::Write(line_text@),
            ],
    {
        terminal.move_to((0, at));
        terminal.clear_line_purge();
        terminal.print(line_text);
        proof {
            assert(final(terminal)@ =~= old(terminal)@ + seq![
                CmdSpec::MoveTo(0, at),
                CmdSpec::ClearToLineEnd,
                CmdSpec::Write(line_text@),
            ]);
        }
    }

    /// Redraw the whole viewport: every physical row gets the buffer
    /// line the scroll offset maps it to, or a tilde marker past the end
    /// of the document; an empty document gets the centred welcome title
    /// on top.
    pub fn render(&self, terminal: &mut Terminal)
        ensures
            final(terminal)@ == old(terminal)@ + spec_render_cmds(*self),
    {
        let ghost base = terminal@;
        let height = self.size.height;
        let count = self.buffer.line_count();
        let mut row: u16 = 0;
        while row < height
            invariant
                row <= height,
                count == self.buffer@.len(),
                terminal@ == base + spec_rows_cmds(
                    self.buffer@,
                    self.scroll_row_offset as int,
                    row as int,
                ),
            decreases height - row,
        {
            if self.scroll_row_offset < count && (row as usize) < count - self.scroll_row_offset {
                let index = self.scroll_row_offset + row as usize;
                match self.buffer.line_at(index) {
                    Some(line) => Self::render_line(terminal, row, line.as_str()),
                    None => Self::render_line(terminal, row, "~"),
                }
            } else {
                Self::render_line(terminal, row, "~");
            }
            proof {
                assert(terminal@ =~= base + spec_rows_cmds(
                    self.buffer@,
                    self.scroll_row_offset as int,
                    row as int + 1,
                ));
            }
            row += 1;
        }
        if self.buffer.is_empty() {
            let message = "welcome use draft!";
            proof {
                reveal_strlit("welcome use draft!");
            }
            let message_len = message.unicode_len();
            if 0 < self.size.height && message_len <= self.size.width as usize {
                let anchor = (self.size.width - message_len as u16) / 2;
                terminal.move_to((anchor, self.size.height / 2));
                terminal.print(message);
            }
        }
        proof {
            assert(final(terminal)@ =~= old(terminal)@ + spec_render_cmds(*self));
        }
    }

    /// Take a new terminal size and ask for a repaint. The document, the
    /// scroll offset and the cursor stay as they are.
    pub fn resize(&mut self, position: Position)
        ensures
            final(self).size == (Size { width: position.col, height: position.row }),
            final(self).redraw == true,
            final(self).buffer == old(self).buffer,
            final(self).scroll_row_offset == old(self).scroll_row_offset,
            final(self).gen_default == old(self).gen_default,
    {
        self.size = Size { width: position.col, height: position.row };
        self.redraw = true;
    }

    /// Refresh the screen: when a repaint is due, home the caret and
    /// redraw every row; either way, put the caret on the cursor's cell.
    /// Clears the repaint flag.
    pub fn refresh_screen(&mut self, terminal: &mut Terminal, caret: Location)
        requires
            old(self).caret_in_window(caret),
        ensures
            final(terminal)@ == old(terminal)@ + spec_refresh_cmds(*old(self), caret),
            *final(self) == (View { redraw: false, ..*old(self) }),
    {
        if self.redraw {
            terminal.move_caret_to(Position { col: 0, row: 0 });
            self.render(terminal);
            self.redraw = false;
        }
        let col = if caret.x > u16::MAX as usize {
            u16::MAX
        } else {
            caret.x as u16
        };
        let screen_row = (caret.y - self.scroll_row_offset) as u16;
        terminal.move_caret_to(Position { col, row: screen_row });
        proof {
            assert(final(terminal)@ =~= old(terminal)@ + spec_refresh_cmds(*old(self), caret));
        }
    }

    /// Take over the loaded document: its lines replace the buffer, the
    /// view scrolls back to the top, and a repaint is due. An empty load
    /// leaves the welcome screen standing in.
    pub fn load(&mut self, lines: Vec<String>)
        ensures
            final(self).buffer@ == lines.deep_view(),
            final(self).gen_default == (lines@.len() == 0),
            final(self).size == old(self).size,
            final(self).redraw == true,
            final(self).scroll_row_offset == 0,
    {
        self.gen_default = lines.len() == 0;
        self.buffer = Buffer { lines };
        self.scroll_row_offset = 0;
        self.redraw = true;
    }
}

} // verus!
