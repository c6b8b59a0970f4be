//! Editor core: cursor movement, the key-event state machine, and the
//! editor state that ties buffer, viewport and cursor together.

use vstd::prelude::*;
use vstd::view::View as VstdView;

use crate::terminal::CmdSpec;
use crate::terminal::Position;
use crate::terminal::Terminal;
use crate::view::spec_delete_before;
use crate::view::spec_insert_char;
use crate::view::spec_refresh_cmds;
use crate::view::spec_split_line;
use crate::view::View;

verus! {

/// One of the four cursor directions.
#[derive(Debug, Clone, Copy, PartialEq, Eq, Structural)]
pub enum Direction {
    Up,
    Down,
    Left,
    Right,
}

/// A move over raw screen coordinates: a direction, a step, and the
/// position being moved. Arithmetic saturates at the `u16` bounds,
/// never wraps.
#[derive(Debug, Clone, Copy)]
pub struct MoveAction {
    pub direction: Direction,
    pub move_step: u16,
    pub target_position: (u16, u16),
}

/// The position a [`MoveAction`] lands on: one saturating step from its
/// starting position, along its direction.
pub open spec fn spec_target_after(a: MoveAction) -> (u16, u16) {
    match a.direction {
        Direction::Up => (a.target_position.0, a.target_position.1.saturating_sub(a.move_step)),
        Direction::Down => (a.target_position.0, a.target_position.1.saturating_add(a.move_step)),
        Direction::Left => (a.target_position.0.saturating_sub(a.move_step), a.target_position.1),
        Direction::Right => (a.target_position.0.saturating_add(a.move_step), a.target_position.1),
    }
}

impl MoveAction {
    /// A move of `move_step` cells in `direction`, starting from `position`.
    pub fn new(direction: Direction, position: (u16, u16), move_step: u16) -> (a: MoveAction)
        ensures
            a.direction == direction,
            a.move_step == move_step,
            a.target_position == position,
    {
        MoveAction { direction, move_step, target_position: position }
    }

    /// Apply the move: the target position advances one saturating step
    /// along the direction.
    pub fn to_move(&mut self) -> (r: &mut MoveAction)
        ensures
            *r == (MoveAction { target_position: spec_target_after(*old(self)), ..*old(self) }),
            *final(self) == *final(r),
    {
        match self.direction {
            Direction::Up => {
                self.target_position.1 = self.target_position.1.saturating_sub(self.move_step);
            }
            Direction::Down => {
                self.target_position.1 = self.target_position.1.saturating_add(self.move_step);
            }
            Direction::Left => {
                self.target_position.0 = self.target_position.0.saturating_sub(self.move_step);
            }
            Direction::Right => {
                self.target_position.0 = self.target_position.0.saturating_add(self.move_step);
            }
        };
        self
    }

    /// The position the action currently points at.
    pub fn get_target_position(&mut self) -> (p: (u16, u16))
        ensures
            p == old(self).target_position,
            *final(self) == *old(self),
    {
        self.target_position
    }
}

/// A cursor position in the buffer: `x` is the column (a character index
/// into the line, may sit one past the last character), `y` the line index.
#[derive(Debug, Clone, Copy, PartialEq, Eq, Structural)]
pub struct Location {
    pub x: usize,
    pub y: usize,
}

impl Default for Location {
    fn default() -> (loc: Location)
        ensures
            loc.x == 0,
            loc.y == 0,
    {
        Location { x: 0, y: 0 }
    }
}

/// A key, reduced to what the state machine distinguishes.
#[derive(Debug, Clone, Copy, PartialEq, Eq, Structural)]
pub enum KeyCode {
    Char(char),
    Enter,
    Backspace,
    Tab,
    Other,
}

/// The modifier held with a key, reduced to what the shortcuts read.
#[derive(Debug, Clone, Copy, PartialEq, Eq, Structural)]
pub enum KeyModifiers {
    Plain,
    Control,
    Shift,
    Other,
}

/// One key press: the key and its modifier.
#[derive(Debug, Clone, Copy, PartialEq, Eq, Structural)]
pub struct KeyEvent {
    pub code: KeyCode,
    pub modifiers: KeyModifiers,
}

/// One terminal event: a key press, a resize to (columns, rows), or
/// anything else, which the editor ignores.
#[derive(Debug, Clone, Copy, PartialEq, Eq, Structural)]
pub enum InputEvent {
    Key(KeyEvent),
    Resize(u16, u16),
    Other,
}

/// What the main loop does after an event: stop, or go on. `SKIP`
/// marks an event that fell through the shortcut table.
#[allow(non_camel_case_types)]
#[derive(Debug, Clone, Copy, PartialEq, Eq, Structural)]
pub enum LoopAction {
    Interrupt,
    KeepOn,
    SKIP,
}

/// The length of line `y`, or zero where no such line exists.
pub open spec fn spec_line_len(lines: Seq<Seq<char>>, y: int) -> nat {
    if 0 <= y < lines.len() {
        lines[y].len()
    } else {
        0
    }
}

/// Where one clamped move lands, as (column, line). The line saturates
/// at the document edges, the column at the target line's length:
/// nothing ever goes negative or past the end, and nothing wraps.
pub open spec fn spec_move_cursor_xy(
    lines: Seq<Seq<char>>,
    x0: int,
    y0: int,
    direction: Direction,
    step: int,
) -> (int, int) {
    let ny = match direction {
        Direction::Up => if y0 - step > 0 {
            y0 - step
        } else {
            0
        },
        Direction::Down => if lines.len() == 0 {
            0
        } else if y0 + step < lines.len() - 1 {
            y0 + step
        } else {
            lines.len() - 1
        },
        Direction::Left => y0,
        Direction::Right => y0,
    };
    let nx_raw = match direction {
        Direction::Left => if x0 - step > 0 {
            x0 - step
        } else {
            0
        },
        Direction::Right => x0 + step,
        Direction::Up => x0,
        Direction::Down => x0,
    };
    let len = spec_line_len(lines, ny) as int;
    let nx = if nx_raw < len {
        nx_raw
    } else {
        len
    };
    (nx, ny)
}

/// [`spec_move_cursor_xy`], starting from a cursor position.
pub open spec fn spec_move_cursor(
    lines: Seq<Seq<char>>,
    loc: Location,
    direction: Direction,
    step: int,
) -> (int, int) {
    spec_move_cursor_xy(lines, loc.x as int, loc.y as int, direction, step)
}

/// Where a whole sequence of clamped moves lands, applied first to last.
pub open spec fn spec_apply_moves(
    lines: Seq<Seq<char>>,
    x: int,
    y: int,
    moves: Seq<(Direction, int)>,
) -> (int, int)
    decreases moves.len(),
{
    if moves.len() == 0 {
        (x, y)
    } else {
        let (nx, ny) = spec_move_cursor_xy(lines, x, y, moves[0].0, moves[0].1);
        spec_apply_moves(lines, nx, ny, moves.drop_first())
    }
}

/// Any sequence of Left and Right moves keeps the column between 0 and
/// the current line's length — clamping saturates, never wraps — and
/// never leaves the line.
pub proof fn lemma_horizontal_moves_bounded(
    lines: Seq<Seq<char>>,
    x: int,
    y: int,
    moves: Seq<(Direction, int)>,
)
    requires
        0 <= x <= spec_line_len(lines, y),
        forall|i: int|
            0 <= i < moves.len() ==> ((#[trigger] moves[i]).0 == Direction::Left || moves[i].0
                == Direction::Right) && moves[i].1 >= 0,
    ensures
        ({
            let (nx, ny) = spec_apply_moves(lines, x, y, moves);
            ny == y && 0 <= nx <= spec_line_len(lines, y)
        }),
    decreases moves.len(),
{
    if moves.len() > 0 {
        let (nx, ny) = spec_move_cursor_xy(lines, x, y, moves[0].0, moves[0].1);
        lemma_horizontal_moves_bounded(lines, nx, ny, moves.drop_first());
    }
}

/// Any sequence of Up and Down moves keeps the line index between 0 and
/// the last line of the document — clamping saturates, never wraps.
pub proof fn lemma_vertical_moves_bounded(
    lines: Seq<Seq<char>>,
    x: int,
    y: int,
    moves: Seq<(Direction, int)>,
)
    requires
        lines.len() > 0,
        0 <= y < lines.len(),
        forall|i: int|
            0 <= i < moves.len() ==> ((#[trigger] moves[i]).0 == Direction::Up || moves[i].0
                == Direction::Down) && moves[i].1 >= 0,
    ensures
        ({
            let (nx, ny) = spec_apply_moves(lines, x, y, moves);
            0 <= ny < lines.len()
        }),
    decreases moves.len(),
{
    if moves.len() > 0 {
        let (nx, ny) = spec_move_cursor_xy(lines, x, y, moves[0].0, moves[0].1);
        lemma_vertical_moves_bounded(lines, nx, ny, moves.drop_first());
    }
}

/// The scroll offset after the viewport follows line `y`: up to the
/// line when it lies above the window, down to put it on the last row
/// when it lies below, unchanged when it is already visible. A screen
/// with no rows pins the offset to the line.
pub open spec fn spec_sync_scroll(scroll: int, y: int, height: int) -> int {
    if height == 0 {
        y
    } else if y < scroll {
        y
    } else if y - scroll >= height {
        y - height + 1
    } else {
        scroll
    }
}

/// The editor: the view of the document, and the cursor inside it.
pub struct Editor {
    pub view: View,
    pub is_clear: bool,
    pub location: Location,
}

impl Default for Editor {
    /// An editor on an empty document, cursor at the origin.
    fn default() -> (e: Editor)
        ensures
            e.view.buffer@ == Seq::<Seq<char>>::empty(),
            e.view.redraw == true,
            e.view.scroll_row_offset == 0,
            e.view.size.width == 0 && e.view.size.height == 0,
            e.location.x == 0 && e.location.y == 0,
            e.is_clear == false,
            e.wf(),
    {
        Editor {
            view: View::default(),
            is_clear: false,
            location: Location::default(),
        }
    }
}

impl Editor {
    /// The cursor names a position the document has.
    pub open spec fn cursor_ok(self) -> bool {
        self.view.buffer.pos_valid(self.location)
    }

    /// The cursor's line lies inside the visible window.
    pub open spec fn viewport_ok(self) -> bool {
        self.view.caret_in_window(self.location)
    }

    /// The editor's invariant: a valid cursor inside the window.
    pub open spec fn wf(self) -> bool {
        self.cursor_ok() && self.viewport_ok()
    }

    /// Let the viewport follow the cursor's line. Only a scroll that
    /// actually moves asks for a repaint: a cursor already inside the
    /// window costs no redraw.
    fn sync_scroll(&mut self)
        ensures
            final(self).location == old(self).location,
            final(self).view.buffer == old(self).view.buffer,
            final(self).view.size == old(self).view.size,
            final(self).view.gen_default == old(self).view.gen_default,
            final(self).is_clear == old(self).is_clear,
            final(self).view.scroll_row_offset as int == spec_sync_scroll(
                old(self).view.scroll_row_offset as int,
                old(self).location.y as int,
                old(self).view.size.height as int,
            ),
            final(self).view.redraw == (old(self).view.redraw || final(self).view.scroll_row_offset
                != old(self).view.scroll_row_offset),
            final(self).viewport_ok(),
    {
        let height = self.view.size.height;
        let y = self.location.y;
        if height == 0 {
            if self.view.scroll_row_offset != y {
                self.view.scroll_row_offset = y;
                self.view.redraw = true;
            }
        } else if y < self.view.scroll_row_offset {
            self.view.scroll_row_offset = y;
            self.view.redraw = true;
        } else if y - self.view.scroll_row_offset >= height as usize {
            self.view.scroll_row_offset = y - (height as usize - 1);
            self.view.redraw = true;
        }
    }

    /// The one clamped-apply function for cursor movement: one step
    /// count in one direction, saturating at the document edges, with
    /// the column clamped to the target line's length; then the
    /// viewport follows the cursor.
    pub fn move_cursor(&mut self, direction: Direction, step: usize)
        requires
            old(self).wf(),
        ensures
            final(self).wf(),
            final(self).viewport_ok(),
            final(self).view.buffer == old(self).view.buffer,
            final(self).view.size == old(self).view.size,
            final(self).view.gen_default == old(self).view.gen_default,
            final(self).is_clear == old(self).is_clear,
            ({
                let (nx, ny) = spec_move_cursor(
                    old(self).view.buffer@,
                    old(self).location,
                    direction,
                    step as int,
                );
                final(self).location.x == nx && final(self).location.y == ny
            }),
            final(self).view.scroll_row_offset as int == spec_sync_scroll(
                old(self).view.scroll_row_offset as int,
                final(self).location.y as int,
                old(self).view.size.height as int,
            ),
            final(self).view.redraw == (old(self).view.redraw || final(self).view.scroll_row_offset
                != old(self).view.scroll_row_offset),
    {
        let count = self.view.buffer.line_count();
        match direction {
            Direction::Up => {
                self.location.y = self.location.y.saturating_sub(step);
            },
            Direction::Down => {
                if count == 0 {
                    self.location.y = 0;
                } else {
                    let ny = self.location.y.saturating_add(step);
                    self.location.y = if ny > count - 1 {
                        count - 1
                    } else {
                        ny
                    };
                }
            },
            Direction::Left => {
                self.location.x = self.location.x.saturating_sub(step);
            },
            Direction::Right => {
                let nx = self.location.x.saturating_add(step);
                self.location.x = nx;
            },
        }
        let len = if count == 0 {
            0
        } else {
            self.view.buffer.line_length(self.location.y)
        };
        if self.location.x > len {
            self.location.x = len;
        }
        self.sync_scroll();
    }
}

/// The shortcut that ends the session.
pub open spec fn is_interrupt_key(e: KeyEvent) -> bool {
    e.code == KeyCode::Char('c') && e.modifiers == KeyModifiers::Control
}

/// The shortcut that clears the whole screen.
pub open spec fn is_clear_screen_key(e: KeyEvent) -> bool {
    e.code == KeyCode::Char('l') && e.modifiers == KeyModifiers::Shift
}

/// The shortcut that clears the caret's line.
pub open spec fn is_clear_line_key(e: KeyEvent) -> bool {
    e.code == KeyCode::Char('k') && e.modifiers == KeyModifiers::Shift
}

/// Whether a character key, under these modifiers, stands for text to
/// insert rather than a chord.
pub open spec fn inserts_text(m: KeyModifiers) -> bool {
    m == KeyModifiers::Plain || m == KeyModifiers::Shift
}

/// How one key edit steps the editor from `pre` to `post`:
/// Enter splits the cursor's line and puts the cursor at the start of
/// the new line; Backspace deletes before the cursor, joining with the
/// line above at column 0 and doing nothing at the document start; Tab
/// moves right by four clamped columns; a plain character enters the
/// document before the cursor, which steps right; anything else, and a
/// character under a chord modifier, is a no-op. Every edit marks the
/// screen for repaint, and the viewport follows the cursor.
pub open spec fn keypress_rel(pre: Editor, post: Editor, e: KeyEvent) -> bool {
    &&& post.view.size == pre.view.size
    &&& post.view.gen_default == pre.view.gen_default
    &&& post.is_clear == pre.is_clear
    &&& post.view.scroll_row_offset as int == spec_sync_scroll(
        pre.view.scroll_row_offset as int,
        post.location.y as int,
        pre.view.size.height as int,
    )
    &&& match e.code {
        KeyCode::Enter => {
            &&& post.view.buffer@ == spec_split_line(pre.view.buffer@, pre.location)
            &&& post.location.x == 0
            &&& post.location.y == pre.location.y + 1
            &&& post.view.redraw == true
        },
        KeyCode::Backspace => {
            &&& post.view.buffer@ == spec_delete_before(pre.view.buffer@, pre.location)
            &&& (pre.location.x > 0 ==> post.location.x + 1 == pre.location.x
                && post.location.y == pre.location.y && post.view.redraw == true)
            &&& (pre.location.x == 0 && pre.location.y > 0 ==> post.location.y + 1
                == pre.location.y && post.location.x == pre.view.buffer@[pre.location.y as int
                - 1].len() && post.view.redraw == true)
            &&& (pre.location.x == 0 && pre.location.y == 0 ==> post.location == pre.location
                && post.view.redraw == pre.view.redraw)
        },
        KeyCode::Tab => {
            &&& post.view.buffer == pre.view.buffer
            &&& ({
                let (nx, ny) = spec_move_cursor(pre.view.buffer@, pre.location, Direction::Right, 4);
                post.location.x == nx && post.location.y == ny
            })
            &&& post.view.redraw == (pre.view.redraw || post.view.scroll_row_offset
                != pre.view.scroll_row_offset)
        },
        KeyCode::Char(c) => {
            &&& (inserts_text(e.modifiers) ==> {
                &&& post.view.buffer@ == spec_insert_char(pre.view.buffer@, pre.location, c)
                &&& post.location.x == pre.location.x + 1
                &&& post.location.y == pre.location.y
                &&& post.view.redraw == true
            })
            &&& (!inserts_text(e.modifiers) ==> post == pre)
        },
        KeyCode::Other => post == pre,
    }
}

impl Editor {
    /// The shortcut table, tried before any edit: the interrupt chord
    /// ends the loop; the clear chords queue their screen operation and
    /// consume the key; everything else falls through as `SKIP`.
    pub fn process_shortcuts(event: &KeyEvent, terminal: &mut Terminal) -> (r: LoopAction)
        ensures
            is_interrupt_key(*event) ==> r == LoopAction::Interrupt && final(terminal)@ == old(
                terminal,
            )@,
            is_clear_screen_key(*event) ==> r == LoopAction::KeepOn && final(terminal)@ == old(
                terminal,
            )@.push(CmdSpec::ClearAll),
            is_clear_line_key(*event) ==> r == LoopAction::KeepOn && final(terminal)@ == old(
                terminal,
            )@.push(CmdSpec::ClearCurrentLine),
            !(is_interrupt_key(*event) || is_clear_screen_key(*event) || is_clear_line_key(*event))
                ==> r == LoopAction::SKIP && final(terminal)@ == old(terminal)@,
    {
        match (event.code, event.modifiers) {
            (KeyCode::Char('c'), KeyModifiers::Control) => LoopAction::Interrupt,
            (KeyCode::Char('l'), KeyModifiers::Shift) => {
                terminal.clear_screen();
                LoopAction::KeepOn
            },
            (KeyCode::Char('k'), KeyModifiers::Shift) => {
                terminal.clear_line();
                LoopAction::KeepOn
            },
            _ => LoopAction::SKIP,
        }
    }

    /// Apply one key edit to the document and cursor, per
    /// [`keypress_rel`].
    pub fn process_keypress(&mut self, event: &KeyEvent)
        requires
            old(self).wf(),
        ensures
            final(self).wf(),
            keypress_rel(*old(self), *final(self), *event),
    {
        match event.code {
            KeyCode::Enter => {
                let at = self.location;
                let count = self.view.buffer.line_count();
                let _ = self.view.buffer.split_line(at);
                proof {
                    assert(count > 0 ==> at.y < count);
                }
                self.location = Location { x: 0, y: at.y + 1 };
                self.view.redraw = true;
                self.sync_scroll();
            },
            KeyCode::Backspace => {
                let at = self.location;
                match self.view.buffer.delete_char_before(at) {
                    Ok(p) => {
                        self.location = p;
                    },
                    Err(_) => {},
                }
                if at.x > 0 || at.y > 0 {
                    self.view.redraw = true;
                }
                self.sync_scroll();
            },
            KeyCode::Tab => {
                self.move_cursor(Direction::Right, 4);
            },
            KeyCode::Char(c) => {
                match event.modifiers {
                    KeyModifiers::Plain | KeyModifiers::Shift => {
                        let at = self.location;
                        let _ = self.view.buffer.insert_char(at, c);
                        self.move_cursor(Direction::Right, 1);
                        self.view.redraw = true;
                    },
                    _ => {},
                }
            },
            KeyCode::Other => {},
        }
    }
}

/// How one key event steps the editor and the command queue: the
/// interrupt chord touches nothing; a clear chord queues its screen
/// operation and touches no state; every other key reaches the edit
/// table, [`keypress_rel`], and queues nothing.
pub open spec fn keyevent_rel(
    pre: Editor,
    post: Editor,
    cmds_pre: Seq<CmdSpec>,
    cmds_post: Seq<CmdSpec>,
    e: KeyEvent,
    r: LoopAction,
) -> bool {
    &&& (is_interrupt_key(e) ==> r == LoopAction::Interrupt && post == pre && cmds_post
        == cmds_pre)
    &&& (is_clear_screen_key(e) ==> r == LoopAction::KeepOn && post == pre && cmds_post
        == cmds_pre.push(CmdSpec::ClearAll))
    &&& (is_clear_line_key(e) ==> r == LoopAction::KeepOn && post == pre && cmds_post
        == cmds_pre.push(CmdSpec::ClearCurrentLine))
    &&& (!(is_interrupt_key(e) || is_clear_screen_key(e) || is_clear_line_key(e)) ==> r
        == LoopAction::SKIP && keypress_rel(pre, post, e) && cmds_post == cmds_pre)
}

impl Editor {
    /// Dispatch one key event: the shortcut table first, and only a key
    /// that no shortcut consumed reaches the edit table.
    pub fn process_keyevents(&mut self, event: &KeyEvent, terminal: &mut Terminal) -> (r:
        LoopAction)
        requires
            old(self).wf(),
        ensures
            final(self).wf(),
            keyevent_rel(*old(self), *final(self), old(terminal)@, final(terminal)@, *event, r),
            r == LoopAction::Interrupt <==> is_interrupt_key(*event),
    {
        let action = Self::process_shortcuts(event, terminal);
        if let LoopAction::SKIP = action {
            self.process_keypress(event);
        }
        action
    }

    /// Dispatch one terminal event: a key goes through the key tables; a
    /// resize takes the new size, keeps the cursor where it is, lets the
    /// viewport follow it, and asks for a repaint; anything else is a
    /// no-op. Only the interrupt chord ends the loop.
    pub fn process_event(&mut self, event: InputEvent, terminal: &mut Terminal) -> (r: LoopAction)
        requires
            old(self).wf(),
        ensures
            final(self).wf(),
            final(self).viewport_ok(),
            event matches InputEvent::Key(k) ==> keyevent_rel(
                *old(self),
                *final(self),
                old(terminal)@,
                final(terminal)@,
                k,
                r,
            ),
            r == LoopAction::Interrupt <==> (event matches InputEvent::Key(k)
                && is_interrupt_key(k)),
            event matches InputEvent::Resize(columns, rows) ==> {
                &&& final(self).view.buffer == old(self).view.buffer
                &&& final(self).location == old(self).location
                &&& final(self).view.size.width == columns
                &&& final(self).view.size.height == rows
                &&& final(self).view.redraw == true
                &&& final(self).view.scroll_row_offset as int == spec_sync_scroll(
                    old(self).view.scroll_row_offset as int,
                    old(self).location.y as int,
                    rows as int,
                )
                &&& final(terminal)@ == old(terminal)@
                &&& r == LoopAction::SKIP
            },
            event == InputEvent::Other ==> *final(self) == *old(self) && final(terminal)@ == old(
                terminal,
            )@ && r == LoopAction::SKIP,
    {
        match event {
            InputEvent::Key(k) => self.process_keyevents(&k, terminal),
            InputEvent::Resize(columns, rows) => {
                self.view.resize(Position { col: columns, row: rows });
                self.sync_scroll();
                LoopAction::SKIP
            },
            InputEvent::Other => LoopAction::SKIP,
        }
    }

    /// Refresh the screen for the current state: repaint when due, and
    /// put the caret on the cursor's cell either way.
    pub fn refresh_screen(&mut self, terminal: &mut Terminal)
        requires
            old(self).wf(),
        ensures
            final(self).wf(),
            final(terminal)@ == old(terminal)@ + spec_refresh_cmds(
                old(self).view,
                old(self).location,
            ),
            *final(self) == (Editor {
                view: (View { redraw: false, ..old(self).view }),
                ..*old(self)
            }),
    {
        let caret = self.location;
        self.view.refresh_screen(terminal, caret);
    }
}

} // verus!
