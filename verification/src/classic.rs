use vstd::prelude::*;
use crate::command::{CONTROL, KeyCode, KeyInput, Mode, MoveDirection};
use crate::editor::{Editor, EditorView, editor_cursor_moved, join_lines, key_typed, plain_between};
use crate::highlight::highlight_name_list;
use crate::results::{rotate_each_row, rows_nonempty, rows_rotl, rows_rotr, rows_view};
use crate::seqs::{rotl, rotr, rotate_left_one, rotate_right_one};

verus! {

/// The part of the window that receives the keys: the editor above or the
/// results below.
#[derive(Debug, Clone, Copy, PartialEq, Eq, Structural)]
pub enum Section {
    Editor,
    Results,
}

/// What is left to do after a key, outside the client's state.
pub enum KeyOutcome {
    /// Nothing.
    Done,
    /// Run this query and show what it returns.
    Query(String),
}

/// The state of the two-pane client: the editor, the result of the last
/// query, the mode, the section with the focus, the names of the tables,
/// and whether the client is to stop.
pub struct App<'a> {
    pub editor: Editor<'a>,
    pub result_columns: Vec<String>,
    pub results: Vec<Vec<String>>,
    pub mode: Mode,
    pub should_quit: bool,
    pub focus: Section,
    pub tables: Vec<String>,
}

/// An `App` as mathematical values.
pub struct ClassicView {
    pub editor: EditorView,
    pub result_columns: Seq<String>,
    pub results: Seq<Seq<String>>,
    pub mode: Mode,
    pub should_quit: bool,
    pub focus: Section,
    pub tables: Seq<String>,
}

impl<'a> View for App<'a> {
    type V = ClassicView;

    open spec fn view(&self) -> ClassicView {
        ClassicView {
            editor: self.editor@,
            result_columns: self.result_columns@,
            results: rows_view(self.results@),
            mode: self.mode,
            should_quit: self.should_quit,
            focus: self.focus,
            tables: self.tables@,
        }
    }
}

/// Whether the key is `c`, whatever the modifiers.
pub open spec fn key_is(key: KeyInput, c: char) -> bool {
    key.code == KeyCode::Char(c)
}

/// Whether the key is `c` with exactly the Control modifier.
pub open spec fn key_is_ctrl(key: KeyInput, c: char) -> bool {
    key.code == KeyCode::Char(c) && key.modifiers == CONTROL
}

/// The keys of the results section that would take an element out of an
/// empty sequence: k with no rows, b with an empty row.
pub open spec fn results_key_allowed(v: ClassicView, key: KeyInput) -> bool {
    &&& v.focus == Section::Results && key_is(key, 'k') && !key_is_ctrl(key, 'k') ==> v.results.len() > 0
    &&& v.focus == Section::Results && key_is(key, 'b') ==> rows_nonempty(v.results)
}

/// The state after a key in the results section: Ctrl-k gives the focus to
/// the editor; k moves the rows up round (the first row goes last), j moves
/// them down round; w moves every row one cell to the right, b one cell to
/// the left; other keys do nothing.
pub open spec fn results_after(v: ClassicView, key: KeyInput) -> ClassicView {
    if key_is_ctrl(key, 'k') {
        ClassicView { focus: Section::Editor, ..v }
    } else if key_is(key, 'k') {
        ClassicView { results: rotl(v.results), ..v }
    } else if key_is(key, 'j') {
        ClassicView { results: rotr(v.results), ..v }
    } else if key_is(key, 'w') {
        ClassicView { results: rows_rotr(v.results), ..v }
    } else if key_is(key, 'b') {
        ClassicView { results: rows_rotl(v.results), ..v }
    } else {
        v
    }
}

/// Whether the key is one the editor section handles by changing the text
/// (typed in insert mode), as opposed to the commands of the editor.
pub open spec fn is_typed(v: ClassicView, key: KeyInput) -> bool {
    &&& v.mode == Mode::Insert
    &&& key.code != KeyCode::Esc
    &&& !key_is_ctrl(key, 's')
}

/// The state after a key in the editor section that is not typed: Esc in
/// insert mode goes to visual mode; Ctrl-s (in either mode) changes nothing
/// here but runs the query; in visual mode i goes to insert mode and Ctrl-j
/// gives the focus to the results. What the editor does (its cursor) is
/// in `editor_key_effect`.
pub open spec fn editor_after(v: ClassicView, key: KeyInput) -> ClassicView {
    if v.mode == Mode::Insert && key.code == KeyCode::Esc {
        ClassicView { mode: Mode::Visual, ..v }
    } else if key_is_ctrl(key, 's') {
        v
    } else if v.mode == Mode::Visual && key_is(key, 'i') {
        ClassicView { mode: Mode::Insert, ..v }
    } else if v.mode == Mode::Visual && !key_is(key, 'k') && key_is_ctrl(key, 'j') {
        ClassicView { focus: Section::Results, ..v }
    } else {
        v
    }
}

/// The editor after a key in the editor section that is not typed: Esc in
/// insert mode draws the cursor reversed, i in visual mode draws it plain;
/// in visual mode k moves the cursor up, j (without Control) down, l forward
/// and h back; other keys leave the editor as it is.
pub open spec fn editor_key_effect(v: ClassicView, key: KeyInput, e: EditorView) -> bool {
    if v.mode == Mode::Insert && key.code == KeyCode::Esc {
        e == EditorView { cursor_reversed: true, ..v.editor }
    } else if key_is_ctrl(key, 's') || v.mode == Mode::Insert {
        e == v.editor
    } else if key_is(key, 'i') {
        e == EditorView { cursor_reversed: false, ..v.editor }
    } else if key_is(key, 'k') {
        editor_cursor_moved(v.editor, e, MoveDirection::Up)
    } else if key_is_ctrl(key, 'j') {
        e == v.editor
    } else if key_is(key, 'j') {
        editor_cursor_moved(v.editor, e, MoveDirection::Down)
    } else if key_is(key, 'l') {
        editor_cursor_moved(v.editor, e, MoveDirection::Right)
    } else if key_is(key, 'h') {
        editor_cursor_moved(v.editor, e, MoveDirection::Left)
    } else {
        e == v.editor
    }
}

/// Whether the character is `c`.
fn code_is(code: KeyCode, c: char) -> (b: bool)
    ensures
        b == (code == KeyCode::Char(c)),
{
    match code {
        KeyCode::Char(d) => d == c,
        _ => false,
    }
}

impl<'a> App<'a> {
    /// The client over the given tables, in visual mode with the editor
    /// focused and no results.
    pub fn new(tables: Vec<String>) -> (app: App<'a>)
        ensures
            app@.editor.lines == seq![Seq::<char>::empty()],
            app@.editor.spans.len() == 0,
            app@.editor.cursor_row == 0,
            app@.editor.cursor_col == 0,
            app@.editor.cursor_reversed,
            app@.editor.highlight_names == highlight_name_list(),
            !app@.editor.focused,
            app@.result_columns.len() == 0,
            app@.results.len() == 0,
            app@.mode == Mode::Visual,
            !app@.should_quit,
            app@.focus == Section::Editor,
            app@.tables == tables@,
    {
        let editor = Editor::new();
        let app = App {
            editor,
            result_columns: Vec::new(),
            results: Vec::new(),
            mode: Mode::Visual,
            should_quit: false,
            focus: Section::Editor,
            tables,
        };
        assert(app@.results =~= Seq::<Seq<String>>::empty());
        app
    }

    /// Shows the result of a query: its column names and its rows.
    pub fn user_query(&mut self, columns: Vec<String>, rows: Vec<Vec<String>>)
        ensures
            final(self)@ == (ClassicView {
                result_columns: columns@,
                results: rows_view(rows@),
                ..old(self)@
            }),
    {
        self.result_columns = columns;
        self.results = rows;
    }

    /// Handles a key in the results section.
    pub fn results_handle_key(&mut self, key: KeyInput)
        requires
            results_key_allowed(ClassicView { focus: Section::Results, ..old(self)@ }, key),
        ensures
            final(self)@ == results_after(old(self)@, key),
    {
        if code_is(key.code, 'k') && key.modifiers == CONTROL {
            self.focus = Section::Editor;
        } else if code_is(key.code, 'k') {
            rotate_left_one(&mut self.results);
            assert(rows_view(self.results@) =~= rotl(old(self)@.results));
        } else if code_is(key.code, 'j') {
            rotate_right_one(&mut self.results);
            assert(rows_view(self.results@) =~= rotr(old(self)@.results));
        } else if code_is(key.code, 'w') {
            rotate_each_row(&mut self.results, false);
        } else if code_is(key.code, 'b') {
            rotate_each_row(&mut self.results, true);
        }
    }

    /// Handles a key in the editor section. Typed keys change the text and
    /// highlight it; Ctrl-s asks for the text to be run as a query.
    pub fn editor_handle_key(&mut self, key: KeyInput) -> (out: KeyOutcome)
        ensures
            is_typed(old(self)@, key) ==> {
                &&& final(self)@ == (ClassicView { editor: final(self)@.editor, ..old(self)@ })
                &&& out is Done
                &&& key_typed(old(self).editor, key, final(self)@.editor)
            },
            !is_typed(old(self)@, key) ==> final(self)@ == (ClassicView {
                editor: final(self)@.editor,
                ..editor_after(old(self)@, key)
            }) && editor_key_effect(old(self)@, key, final(self)@.editor),
            !is_typed(old(self)@, key) && key_is_ctrl(key, 's') ==> (out matches KeyOutcome::Query(q)
                && q@ == join_lines(old(self)@.editor.lines)),
            !is_typed(old(self)@, key) && !key_is_ctrl(key, 's') ==> out is Done,
    {
        let insert = match self.mode {
            Mode::Insert => true,
            Mode::Visual => false,
        };
        let esc = match key.code {
            KeyCode::Esc => true,
            _ => false,
        };
        let ctrl = key.modifiers == CONTROL;
        if insert && esc {
            self.mode = Mode::Visual;
            self.editor.reverse_cursor();
            KeyOutcome::Done
        } else if code_is(key.code, 's') && ctrl {
            KeyOutcome::Query(self.editor.content())
        } else if insert {
            self.editor.input_key(key);
            KeyOutcome::Done
        } else if code_is(key.code, 'i') {
            self.mode = Mode::Insert;
            self.editor.unreverse_cursor();
            KeyOutcome::Done
        } else {
            if code_is(key.code, 'k') {
                self.editor.move_cursor(MoveDirection::Up);
            } else if code_is(key.code, 'j') && ctrl {
                self.focus = Section::Results;
            } else if code_is(key.code, 'j') {
                self.editor.move_cursor(MoveDirection::Down);
            } else if code_is(key.code, 'l') {
                self.editor.move_cursor(MoveDirection::Right);
            } else if code_is(key.code, 'h') {
                self.editor.move_cursor(MoveDirection::Left);
            }
            KeyOutcome::Done
        }
    }

    /// Handles a key: Ctrl-c stops the client; other keys go to the section
    /// with the focus.
    pub fn handle_key(&mut self, key: KeyInput) -> (out: KeyOutcome)
        requires
            results_key_allowed(old(self)@, key),
        ensures
            key_is_ctrl(key, 'c') ==> out is Done && final(self)@ == (ClassicView {
                should_quit: true,
                ..old(self)@
            }),
            !key_is_ctrl(key, 'c') && old(self)@.focus == Section::Results ==> out is Done
                && final(self)@ == results_after(old(self)@, key),
            !key_is_ctrl(key, 'c') && old(self)@.focus == Section::Editor && !is_typed(
                old(self)@,
                key,
            ) ==> final(self)@ == (ClassicView {
                editor: final(self)@.editor,
                ..editor_after(old(self)@, key)
            }) && editor_key_effect(old(self)@, key, final(self)@.editor),
            !key_is_ctrl(key, 'c') && old(self)@.focus == Section::Editor && is_typed(
                old(self)@,
                key,
            ) ==> final(self)@ == (ClassicView { editor: final(self)@.editor, ..old(self)@ })
                && key_typed(old(self).editor, key, final(self)@.editor) && out is Done,
            !key_is_ctrl(key, 'c') && old(self)@.focus == Section::Editor && !is_typed(
                old(self)@,
                key,
            ) && key_is_ctrl(key, 's') ==> (out matches KeyOutcome::Query(q) && q@ == join_lines(
                old(self)@.editor.lines,
            )),
    {
        if code_is(key.code, 'c') && key.modifiers == CONTROL {
            self.should_quit = true;
            return KeyOutcome::Done;
        }
        match self.focus {
            Section::Editor => self.editor_handle_key(key),
            Section::Results => {
                self.results_handle_key(key);
                KeyOutcome::Done
            },
        }
    }
}

/// In the results, k and then j, or j and then k, give the rows as they
/// were; w and then b, or b and then w, give every row as it was.
pub proof fn lemma_results_keys_undo(v: ClassicView, k: KeyInput, j: KeyInput, w: KeyInput, b: KeyInput)
    requires
        k.code == KeyCode::Char('k') && k.modifiers != CONTROL,
        j.code == KeyCode::Char('j'),
        w.code == KeyCode::Char('w'),
        b.code == KeyCode::Char('b'),
    ensures
        results_after(results_after(v, k), j) == v,
        results_after(results_after(v, j), k) == v,
        results_after(results_after(v, w), b) == v,
        results_after(results_after(v, b), w) == v,
{
    crate::seqs::lemma_rotr_rotl(v.results);
    crate::results::lemma_rows_rotate_undo(v.results);
}

/// In visual mode, Ctrl-j in the editor gives the focus to the results and
/// Ctrl-k there gives it back to the editor, with nothing else changed.
pub proof fn lemma_focus_round_trip(v: ClassicView, down: KeyInput, up: KeyInput)
    requires
        v.mode == Mode::Visual,
        v.focus == Section::Editor,
        key_is_ctrl(down, 'j'),
        key_is_ctrl(up, 'k'),
    ensures
        editor_after(v, down).focus == Section::Results,
        results_after(editor_after(v, down), up) == v,
{
}

/// In visual mode the editor's keys move its cursor: l goes one column on
/// when a printable character follows the cursor on its line, and from the
/// end of a line to the start of the next; h goes one column back when a
/// printable character stands before the cursor, and from the start of a
/// line to the line above; k goes to the line above and j (without
/// Control) to the line below where there is one. The text stays.
pub proof fn lemma_visual_keys_move_cursor(v: ClassicView, key: KeyInput, e: EditorView)
    requires
        v.mode == Mode::Visual,
        editor_key_effect(v, key, e),
        0 <= v.editor.cursor_row < v.editor.lines.len(),
    ensures
        key_is(key, 'l') || key_is(key, 'h') || key_is(key, 'k') || (key_is(key, 'j') && !key_is_ctrl(
            key,
            'j',
        )) ==> e.lines == v.editor.lines,
        key_is(key, 'l') && v.editor.cursor_col < v.editor.lines[v.editor.cursor_row].len()
            && plain_between(
            v.editor.lines[v.editor.cursor_row],
            v.editor.cursor_col,
            v.editor.lines[v.editor.cursor_row].len() as int,
        ) ==> e.cursor_row == v.editor.cursor_row && e.cursor_col == v.editor.cursor_col + 1,
        key_is(key, 'l') && v.editor.cursor_col >= v.editor.lines[v.editor.cursor_row].len()
            && v.editor.cursor_row + 1 < v.editor.lines.len() ==> e.cursor_row == v.editor.cursor_row
            + 1 && e.cursor_col == 0,
        key_is(key, 'h') && v.editor.cursor_col > 0 && plain_between(
            v.editor.lines[v.editor.cursor_row],
            0,
            v.editor.cursor_col,
        ) ==> e.cursor_row == v.editor.cursor_row && e.cursor_col == v.editor.cursor_col - 1,
        key_is(key, 'h') && v.editor.cursor_col == 0 && v.editor.cursor_row > 0 ==> e.cursor_row
            == v.editor.cursor_row - 1,
        key_is(key, 'k') && v.editor.cursor_row > 0 ==> e.cursor_row == v.editor.cursor_row - 1,
        key_is(key, 'j') && !key_is_ctrl(key, 'j') && v.editor.cursor_row + 1 < v.editor.lines.len()
            ==> e.cursor_row == v.editor.cursor_row + 1,
{
    if key_is(key, 'l') {
        crate::editor::lemma_editor_moves(v.editor, e, MoveDirection::Right);
    } else if key_is(key, 'h') {
        crate::editor::lemma_editor_moves(v.editor, e, MoveDirection::Left);
    } else if key_is(key, 'k') {
        crate::editor::lemma_editor_moves(v.editor, e, MoveDirection::Up);
    } else if key_is(key, 'j') && !key_is_ctrl(key, 'j') {
        crate::editor::lemma_editor_moves(v.editor, e, MoveDirection::Down);
    }
}

} // verus!
