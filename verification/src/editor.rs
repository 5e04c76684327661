use vstd::prelude::*;
use vstd::string::StringExecFns;
use crate::command::{ALT, CONTROL, KeyInput, KeyKind, MoveDirection, term_char, term_kind, term_modifiers};
use crate::highlight::{HighlightParser, highlight_name_list, spans_nonempty, spans_text, sql_spans};
use crate::styles::{StyledText, StyledTextView, copy_spans, styled_view};

verus! {

/// The text area of the text-editing library (lines of text, a cursor, a
/// selection, and the way they are drawn), held in a private field.
#[verifier::external_body]
pub struct TextBuffer<'a> {
    area: ratatui_textarea::TextArea<'a>,
}

/// The lines of text that a text area holds, in order.
pub uninterp spec fn textarea_lines(t: TextBuffer<'_>) -> Seq<Seq<char>>;

/// The line of the text area's cursor (its row, counted from 0).
pub uninterp spec fn textarea_cursor_row(t: TextBuffer<'_>) -> int;

/// The column of the text area's cursor, in characters from the start of
/// its line.
pub uninterp spec fn textarea_cursor_col(t: TextBuffer<'_>) -> int;

/// Whether a selection is being made in the text area.
pub uninterp spec fn textarea_selecting(t: TextBuffer<'_>) -> bool;

/// Whether the text area draws its cursor with the reversed modifier added
/// (colours swapped).
pub uninterp spec fn textarea_cursor_reversed(t: TextBuffer<'_>) -> bool;

/// The lines of text that a text area holds after it takes the key `key`
/// (its terminal event).
pub uninterp spec fn textarea_lines_after_key(t: TextBuffer<'_>, key: KeyInput) -> Seq<Seq<char>>;

/// The cursor (row and column) of a text area after it takes the key `key`
/// (its terminal event).
pub uninterp spec fn textarea_cursor_after_key(t: TextBuffer<'_>, key: KeyInput) -> (int, int);

/// The cursor of a text area is on one of its lines: the text area always
/// holds at least one line and keeps its cursor's row among them.
pub open spec fn textarea_wf(t: TextBuffer<'_>) -> bool {
    &&& 0 <= textarea_cursor_row(t) < textarea_lines(t).len()
    &&& 0 <= textarea_cursor_col(t)
}

/// A move of the cursor of a text area, named as the text-editing library
/// names it.
#[derive(Debug, Clone, Copy, PartialEq, Eq, Structural)]
pub enum CursorMove {
    Forward,
    Back,
    Up,
    Down,
}

/// `TextArea::default`: a text area that holds one empty line, with the
/// cursor at its start, nothing selected, drawn reversed (its source builds
/// it with `TextArea::new(vec![String::new()])`, which sets the cursor to
/// (0, 0), no selection start, and the cursor style to the default style
/// with `REVERSED` added).
#[verifier::external_body]
fn textarea_default<'a>() -> (t: TextBuffer<'a>)
    ensures
        textarea_lines(t) == seq![Seq::<char>::empty()],
        textarea_cursor_row(t) == 0,
        textarea_cursor_col(t) == 0,
        !textarea_selecting(t),
        textarea_cursor_reversed(t),
        textarea_wf(t),
{
    TextBuffer { area: ratatui_textarea::TextArea::default() }
}

/// `TextArea::lines`, copied: the lines the text area holds.
#[verifier::external_body]
fn textarea_lines_of<'a>(t: &'a TextBuffer<'a>) -> (lines: Vec<String>)
    ensures
        lines@.len() == textarea_lines(*t).len(),
        forall|i: int| 0 <= i < lines@.len() ==> #[trigger] lines@[i]@ == textarea_lines(*t)[i],
{
    t.area.lines().to_vec()
}

/// Whether `c` is a printable ASCII character, which the text area draws
/// one column wide.
pub open spec fn plain_char(c: char) -> bool {
    ' ' <= c <= '~'
}

/// Whether a printable ASCII character stands in `line` from index `from`
/// (inclusive) to index `to` (exclusive).
pub open spec fn plain_between(line: Seq<char>, from: int, to: int) -> bool {
    exists|i: int| from <= i < to && 0 <= i < line.len() && plain_char(#[trigger] line[i])
}

/// Where the cursor is after a move from column `col` of line `row` of
/// `lines`, the text area drawing each line on one screen line:
/// - up goes to the line above and down to the line below where there is
///   one (the column is not stated), else the cursor stays;
/// - forward from the end of a line goes to the start of the next line,
///   else (on the last line) the cursor stays; before the end of a line, it
///   goes one column on when a printable character follows the cursor on
///   the line (otherwise the rest of the line may be zero columns wide and
///   count as its end);
/// - back from the start of a line goes to the line above, to its end when
///   it is empty or ends with a printable character, else (on the first
///   line) the cursor stays; after the start, it goes one column back when
///   a printable character stands before the cursor on the line (otherwise
///   the cursor may be at column 0 on the screen and count as at the start).
pub open spec fn cursor_moved_to(
    lines: Seq<Seq<char>>,
    row: int,
    col: int,
    m: CursorMove,
    new_row: int,
    new_col: int,
) -> bool {
    let n = lines.len();
    let line = lines[row];
    let stays = new_row == row && new_col == col;
    let next_line = if row + 1 < n { new_row == row + 1 && new_col == 0 } else { stays };
    let prev_line = if row > 0 {
        &&& new_row == row - 1
        &&& (lines[row - 1].len() == 0 || plain_char(lines[row - 1].last())) ==> new_col
            == lines[row - 1].len()
    } else {
        stays
    };
    match m {
        CursorMove::Up => if row > 0 { new_row == row - 1 } else { stays },
        CursorMove::Down => if row + 1 < n { new_row == row + 1 } else { stays },
        CursorMove::Forward => if col >= line.len() {
            next_line
        } else if plain_between(line, col, line.len() as int) {
            new_row == row && new_col == col + 1
        } else {
            (new_row == row && new_col == col + 1) || next_line
        },
        CursorMove::Back => if col == 0 {
            prev_line
        } else if plain_between(line, 0, col) {
            new_row == row && new_col == col - 1
        } else {
            (new_row == row && new_col == col - 1) || prev_line
        },
    }
}

/// `TextArea::is_selecting`: whether a selection is being made.
#[verifier::external_body]
fn textarea_is_selecting(t: &TextBuffer<'_>) -> (b: bool)
    ensures
        b == textarea_selecting(*t),
{
    t.area.is_selecting()
}

/// `TextArea::move_cursor`: moves the cursor as `cursor_moved_to` says; the
/// lines, the cursor style and whether a selection is being made stay as
/// they are (a selection goes on with the cursor). The text area is never
/// set to wrap lines, so each line is one screen line; `CursorMove::next_cursor`
/// steps forward and back one character (`increment_screen_cursor`,
/// `decrement_screen_cursor`) and tests the ends of a line on the screen
/// column (`screen_line_width`, column 0), where printable ASCII characters
/// are one column wide and no character less than zero. The column after moving up or down is not stated: it goes by
/// display widths of characters and tabs.
#[verifier::external_body]
fn textarea_move_cursor(t: &mut TextBuffer<'_>, m: CursorMove)
    ensures
        textarea_wf(*old(t)),
        textarea_wf(*final(t)),
        textarea_lines(*final(t)) == textarea_lines(*old(t)),
        textarea_cursor_reversed(*final(t)) == textarea_cursor_reversed(*old(t)),
        textarea_selecting(*final(t)) == textarea_selecting(*old(t)),
        cursor_moved_to(
            textarea_lines(*old(t)),
            textarea_cursor_row(*old(t)),
            textarea_cursor_col(*old(t)),
            m,
            textarea_cursor_row(*final(t)),
            textarea_cursor_col(*final(t)),
        ),
{
    t.area.move_cursor(match m {
        CursorMove::Forward => ratatui_textarea::CursorMove::Forward,
        CursorMove::Back => ratatui_textarea::CursorMove::Back,
        CursorMove::Up => ratatui_textarea::CursorMove::Up,
        CursorMove::Down => ratatui_textarea::CursorMove::Down,
    })
}

/// The line `line` with `c` put in at column `col`, or at its end when the
/// column is past the end (`insert_char` finds the byte of the column with
/// `char_indices().nth(col)`, else takes the line's length).
pub open spec fn insert_at(line: Seq<char>, col: int, c: char) -> Seq<char> {
    if col < line.len() {
        line.insert(col, c)
    } else {
        line.push(c)
    }
}

/// The character a key's terminal event types as plain text: a character
/// other than a line break, without Control or Alt, that is not a key
/// release.
pub open spec fn typed_char(key: KeyInput) -> Option<char> {
    match term_char(key) {
        Some(c) => if c != '\n' && c != '\r' && term_modifiers(key) & CONTROL == 0
            && term_modifiers(key) & ALT == 0 && term_kind(key) != KeyKind::Release {
            Some(c)
        } else {
            None
        },
        None => None,
    }
}

/// `TextArea::input` with the key's terminal event: edits the text as the
/// key asks (typing, deleting, moving, undoing and the like). A plain
/// character (`typed_char`) with nothing selected goes through
/// `insert_char` (`input` turns the event into an `Input` that is neither
/// Control nor Alt, and calls `insert_char` with it): it goes into the
/// cursor's line at the cursor's column, the cursor moves one column on and
/// nothing is selected. After any other key the lines and the cursor are
/// `textarea_lines_after_key` and `textarea_cursor_after_key`: the edit goes
/// by the lines, the cursor, the selection, the edit history and the
/// yanked text, which the text area holds, and by the key. The cursor style
/// stays as it is.
#[verifier::external_body]
fn textarea_input(t: &mut TextBuffer<'_>, key: KeyInput)
    ensures
        textarea_wf(*old(t)),
        textarea_wf(*final(t)),
        textarea_cursor_reversed(*final(t)) == textarea_cursor_reversed(*old(t)),
        typed_char(key) is Some && !textarea_selecting(*old(t)) ==> {
            &&& textarea_lines(*final(t)) == textarea_lines(*old(t)).update(
                textarea_cursor_row(*old(t)),
                insert_at(
                    textarea_lines(*old(t))[textarea_cursor_row(*old(t))],
                    textarea_cursor_col(*old(t)),
                    typed_char(key)->0,
                ),
            )
            &&& textarea_cursor_row(*final(t)) == textarea_cursor_row(*old(t))
            &&& textarea_cursor_col(*final(t)) == textarea_cursor_col(*old(t)) + 1
            &&& !textarea_selecting(*final(t))
        },
        !(typed_char(key) is Some && !textarea_selecting(*old(t))) ==> {
            &&& textarea_lines(*final(t)) == textarea_lines_after_key(*old(t), key)
            &&& (textarea_cursor_row(*final(t)), textarea_cursor_col(*final(t)))
                == textarea_cursor_after_key(*old(t), key)
        },
{
    t.area.input(key.event);
}

/// `TextArea::set_cursor_style` with the reversed style: the cursor is drawn
/// with its colours swapped. The lines, the cursor and the selection stay
/// as they are.
#[verifier::external_body]
fn textarea_reverse_cursor(t: &mut TextBuffer<'_>)
    ensures
        textarea_wf(*final(t)),
        textarea_lines(*final(t)) == textarea_lines(*old(t)),
        textarea_cursor_row(*final(t)) == textarea_cursor_row(*old(t)),
        textarea_cursor_col(*final(t)) == textarea_cursor_col(*old(t)),
        textarea_selecting(*final(t)) == textarea_selecting(*old(t)),
        textarea_cursor_reversed(*final(t)),
{
    t.area.set_cursor_style(ratatui::style::Style::default().add_modifier(ratatui::style::Modifier::REVERSED))
}

/// `TextArea::set_cursor_style` with a style that is not reversed: the
/// cursor is drawn as plain text. The lines, the cursor and the selection
/// stay as they are.
#[verifier::external_body]
fn textarea_unreverse_cursor(t: &mut TextBuffer<'_>)
    ensures
        textarea_wf(*final(t)),
        textarea_lines(*final(t)) == textarea_lines(*old(t)),
        textarea_cursor_row(*final(t)) == textarea_cursor_row(*old(t)),
        textarea_cursor_col(*final(t)) == textarea_cursor_col(*old(t)),
        textarea_selecting(*final(t)) == textarea_selecting(*old(t)),
        !textarea_cursor_reversed(*final(t)),
{
    t.area.set_cursor_style(ratatui::style::Style::new().remove_modifier(ratatui::style::Modifier::REVERSED))
}

/// The lines joined into one text, with a line break between two lines.
pub open spec fn join_lines(lines: Seq<Seq<char>>) -> Seq<char>
    decreases lines.len(),
{
    if lines.len() == 0 {
        Seq::empty()
    } else if lines.len() == 1 {
        lines[0]
    } else {
        join_lines(lines.drop_last()) + seq!['\n'] + lines.last()
    }
}

/// The lines joined into one text, with a line break between two lines.
pub fn join_with_newlines(lines: &Vec<String>) -> (text: String)
    ensures
        text@ == join_lines(lines@.map_values(|l: String| l@)),
{
    let ghost views = lines@.map_values(|l: String| l@);
    let mut text = String::new();
    let mut i: usize = 0;
    while i < lines.len()
        invariant
            i <= lines@.len(),
            views == lines@.map_values(|l: String| l@),
            text@ == join_lines(views.take(i as int)),
        decreases lines@.len() - i,
    {
        assert(views.take(i + 1).drop_last() =~= views.take(i as int));
        assert(views.take(i + 1).last() == lines@[i as int]@);
        let ghost before = text@;
        proof {
            reveal_strlit("\n");
        }
        if i > 0 {
            text.append("\n");
        }
        text.append(lines[i].as_str());
        proof {
            if i == 0 {
                assert(text@ =~= views.take(1)[0]);
            } else {
                assert(text@ =~= before + seq!['\n'] + views.take(i + 1).last());
            }
        }
        i = i + 1;
    }
    assert(views.take(lines@.len() as int) =~= views);
    text
}

/// The SQL editor: a text area, the highlighted pieces of its text, and
/// whether it has the focus.
pub struct Editor<'a> {
    highlighter: HighlightParser,
    textarea: TextBuffer<'a>,
    focused: bool,
}

/// An `Editor` as mathematical values.
pub struct EditorView {
    pub lines: Seq<Seq<char>>,
    pub cursor_row: int,
    pub cursor_col: int,
    pub selecting: bool,
    pub cursor_reversed: bool,
    pub spans: Seq<StyledTextView>,
    pub highlight_names: Seq<Seq<char>>,
    pub focused: bool,
}

impl<'a> View for Editor<'a> {
    type V = EditorView;

    closed spec fn view(&self) -> EditorView {
        EditorView {
            lines: textarea_lines(self.textarea),
            cursor_row: textarea_cursor_row(self.textarea),
            cursor_col: textarea_cursor_col(self.textarea),
            selecting: textarea_selecting(self.textarea),
            cursor_reversed: textarea_cursor_reversed(self.textarea),
            spans: self.highlighter.spans_view(),
            highlight_names: self.highlighter.names_view(),
            focused: self.focused,
        }
    }
}

/// The cursor move of a direction: up and down, left back, right forward.
pub open spec fn cursor_move_of(direction: MoveDirection) -> CursorMove {
    match direction {
        MoveDirection::Up => CursorMove::Up,
        MoveDirection::Down => CursorMove::Down,
        MoveDirection::Left => CursorMove::Back,
        MoveDirection::Right => CursorMove::Forward,
    }
}

/// The editor after its cursor moves in `direction`: only the cursor
/// changes, as `cursor_moved_to` says.
pub open spec fn editor_cursor_moved(old: EditorView, new: EditorView, direction: MoveDirection) -> bool {
    &&& new == (EditorView { cursor_row: new.cursor_row, cursor_col: new.cursor_col, ..old })
    &&& cursor_moved_to(
        old.lines,
        old.cursor_row,
        old.cursor_col,
        cursor_move_of(direction),
        new.cursor_row,
        new.cursor_col,
    )
}

/// The editor `new` after `ed` takes the key `key`: a plain character with
/// nothing selected goes into the cursor's line at the cursor's column and
/// the cursor moves one column on; after any other key the lines and the
/// cursor are as the text area makes them (`textarea_lines_after_key`,
/// `textarea_cursor_after_key`). The pieces are the highlighting of the
/// new text: not empty, joining to the text. The highlight names, the
/// focus and the cursor's look stay.
pub open spec fn key_typed<'a>(ed: Editor<'a>, key: KeyInput, new: EditorView) -> bool {
    let old = ed@;
    &&& new.focused == old.focused
    &&& new.cursor_reversed == old.cursor_reversed
    &&& new.highlight_names == old.highlight_names
    &&& 0 <= old.cursor_row < old.lines.len()
    &&& 0 <= new.cursor_row < new.lines.len()
    &&& if typed_char(key) is Some && !old.selecting {
        &&& new.lines == old.lines.update(
            old.cursor_row,
            insert_at(old.lines[old.cursor_row], old.cursor_col, typed_char(key)->0),
        )
        &&& new.cursor_row == old.cursor_row
        &&& new.cursor_col == old.cursor_col + 1
        &&& !new.selecting
    } else {
        &&& new.lines == textarea_lines_after_key(ed.buffer(), key)
        &&& (new.cursor_row, new.cursor_col) == textarea_cursor_after_key(ed.buffer(), key)
    }
    &&& new.spans == sql_spans(old.highlight_names, join_lines(new.lines))
    &&& spans_text(new.spans) == join_lines(new.lines)
    &&& spans_nonempty(new.spans)
}

impl<'a> Editor<'a> {
    /// The text area of the editor.
    pub closed spec fn buffer(&self) -> TextBuffer<'a> {
        self.textarea
    }

    /// An editor holding one empty line, with the cursor at its start,
    /// nothing selected, no highlighted pieces and without the focus.
    pub fn new() -> (e: Editor<'a>)
        ensures
            e@.lines == seq![Seq::<char>::empty()],
            e@.spans.len() == 0,
            !e@.focused,
            e@.cursor_row == 0,
            e@.cursor_col == 0,
            !e@.selecting,
            e@.cursor_reversed,
            e@.highlight_names == highlight_name_list(),
    {
        let highlighter = HighlightParser::new();
        Editor { highlighter, textarea: textarea_default(), focused: false }
    }

    /// The highlighted pieces of the text, in order.
    pub fn line(&self) -> (spans: Vec<StyledText>)
        ensures
            styled_view(spans@) == self@.spans,
    {
        copy_spans(self.highlighter.spans())
    }

    /// The text, its lines joined with line breaks.
    pub fn content(&self) -> (text: String)
        ensures
            text@ == join_lines(self@.lines),
    {
        let lines = textarea_lines_of(&self.textarea);
        assert(lines@.map_values(|l: String| l@) =~= self@.lines);
        join_with_newlines(&lines)
    }

    /// Whether the editor has the focus.
    pub fn is_focused(&self) -> (b: bool)
        ensures
            b == self@.focused,
    {
        self.focused
    }

    /// Types `key` into the text area and highlights the new text, as
    /// `key_typed` says.
    pub fn input_key(&mut self, key: KeyInput)
        ensures
            key_typed(*old(self), key, final(self)@),
    {
        textarea_input(&mut self.textarea, key);
        let text = self.content();
        self.highlighter.highlight(text);
    }

    /// Draws the editor's border as focused.
    pub fn take_focus(&mut self)
        ensures
            final(self)@ == (EditorView { focused: true, ..old(self)@ }),
    {
        self.focused = true;
    }

    /// Draws the editor's border as not focused.
    pub fn lose_focus(&mut self)
        ensures
            final(self)@ == (EditorView { focused: false, ..old(self)@ }),
    {
        self.focused = false;
    }

    /// Draws the cursor with its colours swapped, as in visual mode.
    pub fn reverse_cursor(&mut self)
        ensures
            final(self)@ == (EditorView { cursor_reversed: true, ..old(self)@ }),
    {
        textarea_reverse_cursor(&mut self.textarea);
    }

    /// Draws the cursor as plain text, as in insert mode.
    pub fn unreverse_cursor(&mut self)
        ensures
            final(self)@ == (EditorView { cursor_reversed: false, ..old(self)@ }),
    {
        textarea_unreverse_cursor(&mut self.textarea);
    }

    /// Moves the cursor up, down, back or forward; the text stays as it is.
    pub fn move_cursor(&mut self, direction: MoveDirection)
        ensures
            editor_cursor_moved(old(self)@, final(self)@, direction),
    {
        let m = match direction {
            MoveDirection::Up => CursorMove::Up,
            MoveDirection::Down => CursorMove::Down,
            MoveDirection::Left => CursorMove::Back,
            MoveDirection::Right => CursorMove::Forward,
        };
        textarea_move_cursor(&mut self.textarea, m);
    }
}

/// Typing a plain character into an editor with nothing selected puts the character into that line at the
/// cursor's column and leaves the other lines as they were.
pub proof fn lemma_typed_char_inserted<'a>(ed: Editor<'a>, key: KeyInput, new: EditorView, c: char)
    requires
        key_typed(ed, key, new),
        typed_char(key) == Some(c),
        !ed@.selecting,
    ensures
        new.lines.len() == ed@.lines.len(),
        new.lines[ed@.cursor_row] == insert_at(ed@.lines[ed@.cursor_row], ed@.cursor_col, c),
        forall|i: int| 0 <= i < new.lines.len() && i != ed@.cursor_row ==> new.lines[i] == ed@.lines[i],
        new.cursor_col == ed@.cursor_col + 1,
{
}

/// Moving the editor's cursor: down goes to the next line and up to the
/// line above where there is one, else the cursor stays; right goes one
/// column on when a printable character follows the cursor on its line,
/// and from the end of a line to the start of the next; left goes one
/// column back when a printable character stands before the cursor, and
/// from the start of a line to the line above. Only the cursor changes.
pub proof fn lemma_editor_moves(old: EditorView, new: EditorView, direction: MoveDirection)
    requires
        editor_cursor_moved(old, new, direction),
        0 <= old.cursor_row < old.lines.len(),
    ensures
        new.lines == old.lines,
        new.spans == old.spans,
        new.selecting == old.selecting,
        direction == MoveDirection::Down && old.cursor_row + 1 < old.lines.len() ==> new.cursor_row
            == old.cursor_row + 1,
        direction == MoveDirection::Down && old.cursor_row + 1 >= old.lines.len() ==> new.cursor_row
            == old.cursor_row && new.cursor_col == old.cursor_col,
        direction == MoveDirection::Up && old.cursor_row > 0 ==> new.cursor_row == old.cursor_row - 1,
        direction == MoveDirection::Up && old.cursor_row == 0 ==> new.cursor_row == old.cursor_row
            && new.cursor_col == old.cursor_col,
        direction == MoveDirection::Right && old.cursor_col < old.lines[old.cursor_row].len()
            && plain_between(
            old.lines[old.cursor_row],
            old.cursor_col,
            old.lines[old.cursor_row].len() as int,
        ) ==> new.cursor_row == old.cursor_row && new.cursor_col == old.cursor_col + 1,
        direction == MoveDirection::Right && old.cursor_col >= old.lines[old.cursor_row].len()
            && old.cursor_row + 1 < old.lines.len() ==> new.cursor_row == old.cursor_row + 1
            && new.cursor_col == 0,
        direction == MoveDirection::Left && old.cursor_col > 0 && plain_between(
            old.lines[old.cursor_row],
            0,
            old.cursor_col,
        ) ==> new.cursor_row == old.cursor_row && new.cursor_col == old.cursor_col - 1,
        direction == MoveDirection::Left && old.cursor_col == 0 && old.cursor_row > 0
            ==> new.cursor_row == old.cursor_row - 1,
{
}

} // verus!
