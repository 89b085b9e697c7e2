//! The line editor's decisions: how each byte read from a raw-mode terminal
//! changes the edited line and its cursor, and what the terminal should show
//! next. Reading the bytes and drawing the line is left to the caller.

use vstd::prelude::*;

use crate::text::string_of;

verus! {

/// How far an escape sequence has been read.
#[derive(Debug, Clone, Copy, PartialEq, Eq, Structural)]
pub enum EscapeState {
    /// No escape sequence is open.
    Idle,
    /// `ESC` was read.
    Escape,
    /// `ESC [` was read; the next byte names a cursor movement.
    Bracket,
    /// `ESC` and another byte than `[` were read; the next byte is dropped.
    Discard,
}

/// What the caller should do after a byte was fed to the editor.
#[derive(Debug, Clone, Copy, PartialEq, Eq, Structural)]
pub enum KeyAction {
    /// In the middle of an escape sequence: nothing to show yet.
    Pending,
    /// Redraw the prompt and the line, and place the cursor.
    Redraw,
    /// The line was entered: move to a new line and return it.
    Finish,
    /// End of input: return the line as it stands.
    EndOfInput,
}

pub const KEY_NEWLINE: u8 = 0x0A;

pub const KEY_RETURN: u8 = 0x0D;

pub const KEY_ESCAPE: u8 = 0x1B;

/// `[`, which follows `ESC` in a cursor-movement sequence.
pub const KEY_OPEN_BRACKET: u8 = 0x5B;

/// `D`, which ends the left-arrow sequence.
pub const KEY_LEFT: u8 = 0x44;

/// `C`, which ends the right-arrow sequence.
pub const KEY_RIGHT: u8 = 0x43;

pub const KEY_DELETE: u8 = 0x7F;

pub const KEY_BACKSPACE: u8 = 0x08;

pub const KEY_END_OF_TRANSMISSION: u8 = 0x04;

/// A line being edited: its characters, the insertion cursor, and the state
/// of any escape sequence being read.
pub struct LineEditor {
    buffer: Vec<char>,
    cursor: usize,
    escape: EscapeState,
}

/// The abstract state of a line editor.
pub type EditorState = (Seq<char>, nat, EscapeState);

pub open spec fn is_control(b: u8) -> bool {
    b < 0x20 || b == 0x7F
}

/// The character a printable byte stands for.
pub open spec fn byte_char(b: u8) -> char {
    b as char
}

/// The state after byte `b`, and what to do next.
pub open spec fn step(st: EditorState, b: u8) -> (EditorState, KeyAction) {
    let (buf, cur, esc) = st;
    match esc {
        EscapeState::Escape => if b == KEY_OPEN_BRACKET {
            ((buf, cur, EscapeState::Bracket), KeyAction::Pending)
        } else {
            ((buf, cur, EscapeState::Discard), KeyAction::Pending)
        },
        EscapeState::Bracket => if b == KEY_LEFT {
            ((buf, if cur > 0 { (cur - 1) as nat } else { 0 }, EscapeState::Idle), KeyAction::Redraw)
        } else if b == KEY_RIGHT {
            (
                (buf, if cur < buf.len() { cur + 1 } else { cur }, EscapeState::Idle),
                KeyAction::Redraw,
            )
        } else {
            ((buf, cur, EscapeState::Idle), KeyAction::Redraw)
        },
        EscapeState::Discard => ((buf, cur, EscapeState::Idle), KeyAction::Redraw),
        EscapeState::Idle => if b == KEY_NEWLINE || b == KEY_RETURN {
            (st, KeyAction::Finish)
        } else if b == KEY_ESCAPE {
            ((buf, cur, EscapeState::Escape), KeyAction::Pending)
        } else if b == KEY_DELETE || b == KEY_BACKSPACE {
            if cur > 0 {
                ((buf.remove(cur - 1), (cur - 1) as nat, esc), KeyAction::Redraw)
            } else {
                (st, KeyAction::Redraw)
            }
        } else if b == KEY_END_OF_TRANSMISSION {
            (st, KeyAction::EndOfInput)
        } else if !is_control(b) {
            ((buf.insert(cur as int, byte_char(b)), cur + 1, esc), KeyAction::Redraw)
        } else {
            (st, KeyAction::Redraw)
        },
    }
}

/// Feeds `keys` to an editor in state `st` until the line is entered or the
/// input ends; gives the final state and whether the line was entered.
pub open spec fn run(st: EditorState, keys: Seq<u8>) -> (EditorState, bool)
    decreases keys.len(),
{
    if keys.len() == 0 {
        (st, false)
    } else {
        let (next, action) = step(st, keys[0]);
        match action {
            KeyAction::Finish => (next, true),
            KeyAction::EndOfInput => (next, false),
            _ => run(next, keys.drop_first()),
        }
    }
}

pub open spec fn start_state() -> EditorState {
    (Seq::empty(), 0, EscapeState::Idle)
}

impl LineEditor {
    pub closed spec fn view(&self) -> EditorState {
        (self.buffer@, self.cursor as nat, self.escape)
    }

    /// The cursor never leaves the line.
    pub closed spec fn wf(&self) -> bool {
        self.cursor <= self.buffer@.len()
    }

    /// An editor with an empty line.
    pub fn new() -> (r: LineEditor)
        ensures
            r.wf(),
            r.view() == start_state(),
    {
        LineEditor { buffer: Vec::new(), cursor: 0, escape: EscapeState::Idle }
    }

    /// Position of the cursor within the line, in characters.
    pub fn cursor(&self) -> (r: usize)
        ensures
            r == self.view().1,
    {
        self.cursor
    }

    /// The line as it stands.
    pub fn line(&self) -> (r: String)
        ensures
            r@ == self.view().0,
    {
        string_of(&self.buffer)
    }

    /// The terminal column (counted from 1) where the cursor is drawn, after
    /// a prompt of `prompt_len` columns.
    pub fn cursor_column(&self, prompt_len: usize) -> (r: usize)
        requires
            self.wf(),
            prompt_len + self.view().0.len() + 1 <= usize::MAX,
        ensures
            r == prompt_len + self.view().1 + 1,
    {
        prompt_len + self.cursor + 1
    }

    /// Applies one byte read from the terminal.
    pub fn feed(&mut self, b: u8) -> (r: KeyAction)
        requires
            old(self).wf(),
            old(self).view().0.len() < usize::MAX,
        ensures
            final(self).wf(),
            (final(self).view(), r) == step(old(self).view(), b),
    {
        match self.escape {
            EscapeState::Escape => {
                if b == KEY_OPEN_BRACKET {
                    self.escape = EscapeState::Bracket;
                } else {
                    self.escape = EscapeState::Discard;
                }
                KeyAction::Pending
            },
            EscapeState::Bracket => {
                if b == KEY_LEFT {
                    if self.cursor > 0 {
                        self.cursor = self.cursor - 1;
                    }
                } else if b == KEY_RIGHT {
                    if self.cursor < self.buffer.len() {
                        self.cursor = self.cursor + 1;
                    }
                }
                self.escape = EscapeState::Idle;
                KeyAction::Redraw
            },
            EscapeState::Discard => {
                self.escape = EscapeState::Idle;
                KeyAction::Redraw
            },
            EscapeState::Idle => {
                if b == KEY_NEWLINE || b == KEY_RETURN {
                    KeyAction::Finish
                } else if b == KEY_ESCAPE {
                    self.escape = EscapeState::Escape;
                    KeyAction::Pending
                } else if b == KEY_DELETE || b == KEY_BACKSPACE {
                    if self.cursor > 0 {
                        self.buffer.remove(self.cursor - 1);
                        self.cursor = self.cursor - 1;
                    }
                    KeyAction::Redraw
                } else if b == KEY_END_OF_TRANSMISSION {
                    KeyAction::EndOfInput
                } else if !(b < 0x20 || b == 0x7F) {
                    self.buffer.insert(self.cursor, b as char);
                    self.cursor = self.cursor + 1;
                    KeyAction::Redraw
                } else {
                    KeyAction::Redraw
                }
            },
        }
    }

    /// Forgets the line, for the next one to be read.
    pub fn clear(&mut self)
        ensures
            final(self).wf(),
            final(self).view() == start_state(),
    {
        self.buffer = Vec::new();
        self.cursor = 0;
        self.escape = EscapeState::Idle;
    }
}

/// Feeds `keys` to a fresh editor until a line is entered or the input ends,
/// and returns the line with whether it was entered.
pub fn edit_keys(keys: &[u8]) -> (r: (String, bool))
    ensures
        r.0@ == run(start_state(), keys@).0.0,
        r.1 == run(start_state(), keys@).1,
{
    let mut ed = LineEditor::new();
    let mut i: usize = 0;
    assert(keys@.skip(0) =~= keys@);
    while i < keys.len()
        invariant
            ed.wf(),
            i <= keys@.len(),
            ed.buffer@.len() <= i,
            run(start_state(), keys@) == run(ed.view(), keys@.skip(i as int)),
        decreases keys@.len() - i,
    {
        assert(keys@.skip(i as int)[0] == keys@[i as int]);
        assert(keys@.skip(i as int).drop_first() =~= keys@.skip(i + 1));
        let action = ed.feed(keys[i]);
        match action {
            KeyAction::Finish => {
                return (ed.line(), true);
            },
            KeyAction::EndOfInput => {
                return (ed.line(), false);
            },
            _ => {},
        }
        i = i + 1;
    }
    assert(keys@.skip(i as int) =~= Seq::<u8>::empty());
    (ed.line(), false)
}

} // verus!
