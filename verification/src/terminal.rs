//! Terminal port: the screen is driven through a queue of primitive
//! commands. The editor core only queues commands; the unverified shell
//! drains the queue with [`Terminal::execute`] and performs each command
//! against the real terminal. This keeps every decision about what is
//! written, and in what order, inside verified code.

use vstd::prelude::*;

verus! {

/// A terminal size in character cells.
#[derive(Debug, Clone, Copy, PartialEq, Eq, Structural)]
pub struct Size {
    pub width: u16,
    pub height: u16,
}

impl Default for Size {
    /// A zero size, to be replaced by a real size query at startup.
    fn default() -> (s: Size)
        ensures
            s.width == 0,
            s.height == 0,
    {
        Size { width: 0, height: 0 }
    }
}

/// A screen position: `col` is the column, `row` the row, both zero-based.
#[derive(Debug, Clone, Copy, PartialEq, Eq, Structural)]
pub struct Position {
    pub col: u16,
    pub row: u16,
}

impl Default for Position {
    fn default() -> (p: Position)
        ensures
            p.col == 0,
            p.row == 0,
    {
        Position { col: 0, row: 0 }
    }
}

/// One primitive screen operation, as a plain value.
#[derive(Debug, PartialEq, Eq)]
pub enum TermCommand {
    /// Move the caret to (column, row).
    MoveTo(u16, u16),
    /// Write text at the caret.
    Write(String),
    /// Write text, then advance to the next line, column 0.
    WriteLine(String),
    /// Clear the whole screen.
    ClearAll,
    /// Clear the line the caret is on.
    ClearCurrentLine,
    /// Clear from the caret to the end of the line.
    ClearToLineEnd,
    /// Flush everything queued so far to the screen.
    Flush,
}

/// The mathematical value of a [`TermCommand`]: text as a sequence of
/// characters.
pub enum CmdSpec {
    MoveTo(u16, u16),
    Write(Seq<char>),
    WriteLine(Seq<char>),
    ClearAll,
    ClearCurrentLine,
    ClearToLineEnd,
    Flush,
}

impl View for TermCommand {
    type V = CmdSpec;

    open spec fn view(&self) -> CmdSpec {
        match self {
            TermCommand::MoveTo(col, row) => CmdSpec::MoveTo(*col, *row),
            TermCommand::Write(s) => CmdSpec::Write(s@),
            TermCommand::WriteLine(s) => CmdSpec::WriteLine(s@),
            TermCommand::ClearAll => CmdSpec::ClearAll,
            TermCommand::ClearCurrentLine => CmdSpec::ClearCurrentLine,
            TermCommand::ClearToLineEnd => CmdSpec::ClearToLineEnd,
            TermCommand::Flush => CmdSpec::Flush,
        }
    }
}

/// The view of a command queue: each queued command, in order.
pub open spec fn cmd_views(cmds: Seq<TermCommand>) -> Seq<CmdSpec> {
    cmds.map_values(|c: TermCommand| c@)
}

/// The terminal port. Commands are queued in order; nothing reaches the
/// screen until the queue is drained by [`Terminal::execute`].
pub struct Terminal {
    commands: Vec<TermCommand>,
}

impl View for Terminal {
    type V = Seq<CmdSpec>;

    closed spec fn view(&self) -> Seq<CmdSpec> {
        cmd_views(self.commands@)
    }
}

impl Terminal {
    /// A port with an empty queue.
    pub fn new() -> (t: Terminal)
        ensures
            t@ == Seq::<CmdSpec>::empty(),
    {
        let t = Terminal { commands: Vec::new() };
        proof {
            assert(t@ =~= Seq::<CmdSpec>::empty());
        }
        t
    }

    fn queue_command(&mut self, command: TermCommand)
        ensures
            final(self)@ == old(self)@.push(command@),
    {
        let ghost c = command@;
        self.commands.push(command);
        proof {
            assert(final(self)@ =~= old(self)@.push(c));
        }
    }

    /// Queue a caret move to `(column, row)`.
    pub fn move_to(&mut self, position: (u16, u16))
        ensures
            final(self)@ == old(self)@.push(CmdSpec::MoveTo(position.0, position.1)),
    {
        self.queue_command(TermCommand::MoveTo(position.0, position.1));
    }

    /// Queue a caret move to `position`.
    pub fn move_caret_to(&mut self, position: Position)
        ensures
            final(self)@ == old(self)@.push(CmdSpec::MoveTo(position.col, position.row)),
    {
        self.queue_command(TermCommand::MoveTo(position.col, position.row));
    }

    /// Queue a write of `text` at the caret.
    pub fn print(&mut self, text: &str)
        ensures
            final(self)@ == old(self)@.push(CmdSpec::Write(text@)),
    {
        self.queue_command(TermCommand::Write(text.to_owned()));
    }

    /// Queue a write of `text`, then an advance to the next line, column 0.
    pub fn println(&mut self, text: &str)
        ensures
            final(self)@ == old(self)@.push(CmdSpec::WriteLine(text@)),
    {
        self.queue_command(TermCommand::WriteLine(text.to_owned()));
    }

    /// Queue a clear of the whole screen.
    pub fn clear_screen(&mut self)
        ensures
            final(self)@ == old(self)@.push(CmdSpec::ClearAll),
    {
        self.queue_command(TermCommand::ClearAll);
    }

    /// Queue a clear of the caret's line.
    pub fn clear_line(&mut self)
        ensures
            final(self)@ == old(self)@.push(CmdSpec::ClearCurrentLine),
    {
        self.queue_command(TermCommand::ClearCurrentLine);
    }

    /// Queue a clear from the caret to the end of its line.
    pub fn clear_line_purge(&mut self)
        ensures
            final(self)@ == old(self)@.push(CmdSpec::ClearToLineEnd),
    {
        self.queue_command(TermCommand::ClearToLineEnd);
    }

    /// Append a final flush and hand the whole queue over, leaving the
    /// port empty. The caller performs the commands in order.
    pub fn execute(&mut self) -> (cmds: Vec<TermCommand>)
        ensures
            cmd_views(cmds@) == old(self)@.push(CmdSpec::Flush),
            final(self)@ == Seq::<CmdSpec>::empty(),
    {
        self.commands.push(TermCommand::Flush);
        let mut out: Vec<TermCommand> = Vec::new();
        core::mem::swap(&mut out, &mut self.commands);
        proof {
            assert(cmd_views(out@) =~= old(self)@.push(CmdSpec::Flush));
            assert(final(self)@ =~= Seq::<CmdSpec>::empty());
        }
        out
    }
}

impl Default for Terminal {
    fn default() -> (t: Terminal)
        ensures
            t@ == Seq::<CmdSpec>::empty(),
    {
        Terminal::new()
    }
}

} // verus!
