use vstd::prelude::*;

verus! {

/// The key event as the terminal library reports it; the library carries it
/// through to the text area, which reads it itself.
#[verifier::external_type_specification]
#[verifier::external_body]
pub struct ExTermKeyEvent(crossterm::event::KeyEvent);

/// A direction in which the cursor or the focus moves.
#[derive(Debug, Clone, Copy, PartialEq, Eq, Structural)]
pub enum MoveDirection {
    Up,
    Down,
    Left,
    Right,
}

/// The editing mode: typing into the editor, or commanding it.
#[derive(Debug, Clone, Copy, PartialEq, Eq, Structural)]
pub enum Mode {
    Insert,
    Visual,
}

/// The pane that receives the keys.
#[derive(Debug, Clone, Copy, PartialEq, Eq, Structural)]
pub enum Focus {
    SideTab,
    Editor,
    Results,
    Tables,
}

/// The key of a key event. `Media` and `Modifier` stand for the media keys
/// and the lone modifier keys.
#[derive(Debug, Clone, Copy, PartialEq, Eq, Structural)]
pub enum KeyCode {
    Backspace,
    Enter,
    Left,
    Right,
    Up,
    Down,
    Home,
    End,
    PageUp,
    PageDown,
    Tab,
    BackTab,
    Delete,
    Insert,
    F(u8),
    Char(char),
    Null,
    Esc,
    CapsLock,
    ScrollLock,
    NumLock,
    PrintScreen,
    Pause,
    Menu,
    KeypadBegin,
    Media,
    Modifier,
}

/// The bit of the Shift modifier.
pub const SHIFT: u8 = 1;

/// The bit of the Control modifier.
pub const CONTROL: u8 = 2;

/// The bit of the Alt modifier.
pub const ALT: u8 = 4;

/// No modifier.
pub const NONE: u8 = 0;

/// Whether a key went down, repeats, or went up.
#[derive(Debug, Clone, Copy, PartialEq, Eq, Structural)]
pub enum KeyKind {
    Press,
    Repeat,
    Release,
}

/// A key event: its key, the bits of its modifiers and its kind, together
/// with the terminal's own event, which the text area reads.
#[derive(Debug, Clone, Copy)]
pub struct KeyInput {
    pub code: KeyCode,
    pub modifiers: u8,
    pub kind: KeyKind,
    pub event: crossterm::event::KeyEvent,
}

/// The character of a key's terminal event, when its key is a character.
pub uninterp spec fn term_char(key: KeyInput) -> Option<char>;

/// The modifier bits of a key's terminal event.
pub uninterp spec fn term_modifiers(key: KeyInput) -> u8;

/// The kind of a key's terminal event.
pub uninterp spec fn term_kind(key: KeyInput) -> KeyKind;

/// Reads the key's terminal event: its character when its key is a
/// character, its modifier bits (`KeyModifiers::bits`), and its kind.
#[verifier::external_body]
fn term_key_parts(key: &KeyInput) -> (r: (Option<char>, u8, KeyKind))
    ensures
        r == (term_char(*key), term_modifiers(*key), term_kind(*key)),
{
    let c = match key.event.code {
        crossterm::event::KeyCode::Char(c) => Some(c),
        _ => None,
    };
    let kind = match key.event.kind {
        crossterm::event::KeyEventKind::Press => KeyKind::Press,
        crossterm::event::KeyEventKind::Repeat => KeyKind::Repeat,
        crossterm::event::KeyEventKind::Release => KeyKind::Release,
    };
    (c, key.event.modifiers.bits(), kind)
}

/// Whether the key's plain fields agree with its terminal event: the same
/// character (or no character), the same modifier bits and the same kind.
pub open spec fn key_consistent(key: KeyInput) -> bool {
    &&& match key.code {
        KeyCode::Char(c) => term_char(key) == Some(c),
        _ => term_char(key) is None,
    }
    &&& key.modifiers == term_modifiers(key)
    &&& key.kind == term_kind(key)
}

impl KeyInput {
    /// Whether the key's plain fields agree with its terminal event.
    pub fn is_consistent(&self) -> (b: bool)
        ensures
            b == key_consistent(*self),
    {
        let (c, modifiers, kind) = term_key_parts(self);
        let same_char = match self.code {
            KeyCode::Char(d) => match c {
                Some(e) => d == e,
                None => false,
            },
            _ => c.is_none(),
        };
        same_char && modifiers == self.modifiers && kind == self.kind
    }
}

/// What a key asks the client to do.
#[derive(Debug)]
pub enum Command {
    /// Leave the client.
    Exit,
    /// Type the key into the editor.
    InsertKey(KeyInput),
    /// Run the editor's content as a query.
    ExecuteQuery,
    /// Start typing into the editor.
    EnterInsertMode,
    /// Expand or collapse the active table.
    ExpandTable,
    /// Stop typing into the editor.
    EnterVisualMode,
    /// Move the cursor of the focused pane.
    MoveCursor(MoveDirection),
    /// Move the focus to another pane.
    MoveFocus(MoveDirection),
    /// A key that does nothing.
    TODO,
}

/// Whether the key is `c` with exactly the Control modifier.
pub open spec fn is_ctrl(key: KeyInput, c: char) -> bool {
    key.code == KeyCode::Char(c) && key.modifiers == CONTROL
}

/// Whether the key is `c`, whatever the modifiers.
pub open spec fn is_char(key: KeyInput, c: char) -> bool {
    key.code == KeyCode::Char(c)
}

/// The command that a key asks for, in the pane with the focus and in the
/// editing mode. The first rule that applies decides:
/// Esc leaves; Ctrl with j, h, l or k moves the focus down, left, right or
/// up; in the editor in insert mode Ctrl-c ends insert mode and any other
/// key is typed; in the editor in visual mode i starts insert mode and s
/// runs the query; in the tables Enter expands; j, h, k and l move the
/// cursor down, left, up and right; any other key does nothing.
pub open spec fn command_of(focus: Focus, mode: Mode, key: KeyInput) -> Command {
    if key.code == KeyCode::Esc {
        Command::Exit
    } else if is_ctrl(key, 'j') {
        Command::MoveFocus(MoveDirection::Down)
    } else if is_ctrl(key, 'h') {
        Command::MoveFocus(MoveDirection::Left)
    } else if is_ctrl(key, 'l') {
        Command::MoveFocus(MoveDirection::Right)
    } else if is_ctrl(key, 'k') {
        Command::MoveFocus(MoveDirection::Up)
    } else if focus == Focus::Editor && mode == Mode::Insert && is_ctrl(key, 'c') {
        Command::EnterVisualMode
    } else if focus == Focus::Editor && mode == Mode::Insert {
        Command::InsertKey(key)
    } else if focus == Focus::Editor && mode == Mode::Visual && is_char(key, 'i') {
        Command::EnterInsertMode
    } else if focus == Focus::Editor && mode == Mode::Visual && is_char(key, 's') {
        Command::ExecuteQuery
    } else if focus == Focus::Tables && key.code == KeyCode::Enter {
        Command::ExpandTable
    } else if is_char(key, 'j') {
        Command::MoveCursor(MoveDirection::Down)
    } else if is_char(key, 'h') {
        Command::MoveCursor(MoveDirection::Left)
    } else if is_char(key, 'k') {
        Command::MoveCursor(MoveDirection::Up)
    } else if is_char(key, 'l') {
        Command::MoveCursor(MoveDirection::Right)
    } else {
        Command::TODO
    }
}

/// Whether the key is `c`.
fn char_is(code: KeyCode, c: char) -> (b: bool)
    ensures
        b == (code == KeyCode::Char(c)),
{
    match code {
        KeyCode::Char(d) => d == c,
        _ => false,
    }
}

/// Whether the key is `c` with exactly the Control modifier.
fn ctrl_is(key: &KeyInput, c: char) -> (b: bool)
    ensures
        b == is_ctrl(*key, c),
{
    char_is(key.code, c) && key.modifiers == CONTROL
}

impl Command {
    /// The command that `key` asks for in the pane `focus` and the mode `mode`.
    pub fn from_key(focus: &Focus, mode: &Mode, key: KeyInput) -> (c: Command)
        ensures
            c == command_of(*focus, *mode, key),
    {
        let editor = match focus {
            Focus::Editor => true,
            _ => false,
        };
        let tables = match focus {
            Focus::Tables => true,
            _ => false,
        };
        let insert = match mode {
            Mode::Insert => true,
            Mode::Visual => false,
        };
        let esc = match key.code {
            KeyCode::Esc => true,
            _ => false,
        };
        let enter = match key.code {
            KeyCode::Enter => true,
            _ => false,
        };
        if esc {
            Command::Exit
        } else if ctrl_is(&key, 'j') {
            Command::MoveFocus(MoveDirection::Down)
        } else if ctrl_is(&key, 'h') {
            Command::MoveFocus(MoveDirection::Left)
        } else if ctrl_is(&key, 'l') {
            Command::MoveFocus(MoveDirection::Right)
        } else if ctrl_is(&key, 'k') {
            Command::MoveFocus(MoveDirection::Up)
        } else if editor && insert && ctrl_is(&key, 'c') {
            Command::EnterVisualMode
        } else if editor && insert {
            Command::InsertKey(key)
        } else if editor && !insert && char_is(key.code, 'i') {
            Command::EnterInsertMode
        } else if editor && !insert && char_is(key.code, 's') {
            Command::ExecuteQuery
        } else if tables && enter {
            Command::ExpandTable
        } else if char_is(key.code, 'j') {
            Command::MoveCursor(MoveDirection::Down)
        } else if char_is(key.code, 'h') {
            Command::MoveCursor(MoveDirection::Left)
        } else if char_is(key.code, 'k') {
            Command::MoveCursor(MoveDirection::Up)
        } else if char_is(key.code, 'l') {
            Command::MoveCursor(MoveDirection::Right)
        } else {
            Command::TODO
        }
    }
}

impl<'a> From<(&'a Focus, &'a Mode, KeyInput)> for Command {
    fn from(value: (&'a Focus, &'a Mode, KeyInput)) -> (c: Command) {
        Command::from_key(value.0, value.1, value.2)
    }
}

impl<'a> vstd::std_specs::convert::FromSpecImpl<(&'a Focus, &'a Mode, KeyInput)> for Command {
    open spec fn obeys_from_spec() -> bool {
        true
    }

    open spec fn from_spec(value: (&'a Focus, &'a Mode, KeyInput)) -> Command {
        command_of(*value.0, *value.1, value.2)
    }
}

/// Esc leaves the client, whatever pane has the focus and whatever the mode.
pub proof fn lemma_esc_exits(focus: Focus, mode: Mode, key: KeyInput)
    requires
        key.code == KeyCode::Esc,
    ensures
        command_of(focus, mode, key) == Command::Exit,
{
}

/// Ctrl with j, h, l or k moves the focus down, left, right or up, whatever
/// pane has the focus and whatever the mode.
pub proof fn lemma_ctrl_moves_focus(focus: Focus, mode: Mode, key: KeyInput)
    requires
        key.modifiers == CONTROL,
    ensures
        key.code == KeyCode::Char('j') ==> command_of(focus, mode, key) == Command::MoveFocus(MoveDirection::Down),
        key.code == KeyCode::Char('h') ==> command_of(focus, mode, key) == Command::MoveFocus(MoveDirection::Left),
        key.code == KeyCode::Char('l') ==> command_of(focus, mode, key) == Command::MoveFocus(MoveDirection::Right),
        key.code == KeyCode::Char('k') ==> command_of(focus, mode, key) == Command::MoveFocus(MoveDirection::Up),
{
}

/// Outside the editor, and in the editor in visual mode, j, h, k and l
/// without the Control modifier move the cursor down, left, up and right
/// (except that s and i are editor commands and Enter expands a table).
pub proof fn lemma_vim_keys_move_cursor(focus: Focus, mode: Mode, key: KeyInput)
    requires
        key.modifiers != CONTROL,
        focus != Focus::Editor || mode == Mode::Visual,
    ensures
        key.code == KeyCode::Char('j') ==> command_of(focus, mode, key) == Command::MoveCursor(MoveDirection::Down),
        key.code == KeyCode::Char('h') ==> command_of(focus, mode, key) == Command::MoveCursor(MoveDirection::Left),
        key.code == KeyCode::Char('k') ==> command_of(focus, mode, key) == Command::MoveCursor(MoveDirection::Up),
        key.code == KeyCode::Char('l') ==> command_of(focus, mode, key) == Command::MoveCursor(MoveDirection::Right),
{
}

/// In the editor in insert mode every key other than Esc and the Control
/// chords j, h, l, k and c is typed.
pub proof fn lemma_insert_mode_types(key: KeyInput)
    requires
        key.code != KeyCode::Esc,
        !is_ctrl(key, 'j'),
        !is_ctrl(key, 'h'),
        !is_ctrl(key, 'l'),
        !is_ctrl(key, 'k'),
        !is_ctrl(key, 'c'),
    ensures
        command_of(Focus::Editor, Mode::Insert, key) == Command::InsertKey(key),
{
}

/// In the tables pane Enter expands or collapses the active table, whatever
/// the mode and the modifiers.
pub proof fn lemma_tables_enter_expands(mode: Mode, key: KeyInput)
    requires
        key.code == KeyCode::Enter,
    ensures
        command_of(Focus::Tables, mode, key) == Command::ExpandTable,
{
}

} // verus!
