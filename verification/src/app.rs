use vstd::prelude::*;
use crate::command::{Command, Focus, KeyInput, Mode, MoveDirection};
use crate::editor::{Editor, EditorView, editor_cursor_moved, join_lines, key_typed};
use crate::highlight::highlight_name_list;
use crate::list::{ItemView, ListView, list_moved, list_wf};
use crate::results::{Results, ResultsView, results_moved, rows_nonempty};
use crate::styles::active_style_spec;
use crate::tables::{Tables, table_item_view};
use crate::tabs::SideTabs;

verus! {

/// What is left to do after a command, outside the client's state.
pub enum Step {
    /// Nothing.
    Done,
    /// Run this query and show what it returns.
    Query(String),
}

/// The state of the client: the panes, the pane with the focus, the
/// editing mode, and whether the client is to stop.
pub struct App<'a> {
    pub results: Results,
    pub mode: Mode,
    pub should_quit: bool,
    pub focused: Focus,
    pub tabs: SideTabs,
    pub tables: Tables,
    pub editor: Editor<'a>,
}

/// An `App` as mathematical values.
pub struct AppView {
    pub results: ResultsView,
    pub mode: Mode,
    pub should_quit: bool,
    pub focused: Focus,
    pub tabs: ListView,
    pub tables: ListView,
    pub editor: EditorView,
}

impl<'a> View for App<'a> {
    type V = AppView;

    open spec fn view(&self) -> AppView {
        AppView {
            results: self.results@,
            mode: self.mode,
            should_quit: self.should_quit,
            focused: self.focused,
            tabs: self.tabs.list@,
            tables: self.tables.list@,
            editor: self.editor@,
        }
    }
}

/// The lists of the client are well formed and the tab bar has tabs.
pub open spec fn app_wf(v: AppView) -> bool {
    &&& list_wf(v.tabs)
    &&& v.tabs.items.len() > 0
    &&& list_wf(v.tables)
}

/// Exactly the pane with the focus has its border drawn as focused (the
/// tables pane has no border that shows it).
pub open spec fn focus_consistent(v: AppView) -> bool {
    &&& v.results.focused == (v.focused == Focus::Results)
    &&& v.editor.focused == (v.focused == Focus::Editor)
    &&& v.tabs.focused == (v.focused == Focus::SideTab)
}

/// Moving the focus keeps exactly the pane with the focus drawn as focused.
pub proof fn lemma_focus_set_consistent(v: AppView, f: Focus)
    requires
        focus_consistent(v),
    ensures
        focus_consistent(focus_set(v, f)),
        focus_set(v, f).focused == f,
{
}

/// The client with the border of pane `f` drawn as focused (`on`) or not;
/// the tables pane has no border of its own that changes.
pub open spec fn with_focus_flag(v: AppView, f: Focus, on: bool) -> AppView {
    match f {
        Focus::Results => AppView { results: ResultsView { focused: on, ..v.results }, ..v },
        Focus::Editor => AppView { editor: EditorView { focused: on, ..v.editor }, ..v },
        Focus::SideTab => AppView { tabs: ListView { focused: on, ..v.tabs }, ..v },
        Focus::Tables => v,
    }
}

/// The client after the focus moves to `f`: the pane that had it loses it,
/// `f` gets it.
pub open spec fn focus_set(v: AppView, f: Focus) -> AppView {
    let lost = with_focus_flag(v, v.focused, false);
    with_focus_flag(AppView { focused: f, ..lost }, f, true)
}

/// The client after a move of the cursor of pane `focus`, but for the
/// editor (see `editor_cursor_moved`): the results scroll, the tab bar
/// moves down; other moves change nothing.
pub open spec fn moved_in(v: AppView, focus: Focus, direction: MoveDirection) -> AppView {
    match focus {
        Focus::Results => AppView { results: results_moved(v.results, direction), ..v },
        Focus::SideTab => if direction == MoveDirection::Down {
            AppView { tabs: list_moved(v.tabs, direction), ..v }
        } else {
            v
        },
        _ => v,
    }
}

/// Whether a move in pane `focus` can be made: scrolling the results
/// sideways needs a header and rows that are not empty.
pub open spec fn move_allowed(v: AppView, focus: Focus, direction: MoveDirection) -> bool {
    focus == Focus::Results && v.results.values.len() > 0 && (direction == MoveDirection::Left
        || direction == MoveDirection::Right) ==> v.results.columns.len() > 0 && rows_nonempty(
        v.results.values,
    )
}

/// What a command does to the client (`old` before, `new` after) and what
/// is left to do (`step`). How typing a key changes the editor is
/// `key_typed`; moves of the cursor and of the focus, expanding a table and
/// the keys without a command change nothing.
pub open spec fn command_done(old: AppView, new: AppView, cmd: Command, step: Step) -> bool {
    match cmd {
        Command::Exit => step is Done && new == (AppView { should_quit: true, ..old }),
        Command::EnterInsertMode => step is Done && new == (AppView {
            mode: Mode::Insert,
            editor: EditorView { cursor_reversed: false, ..old.editor },
            ..old
        }),
        Command::EnterVisualMode => step is Done && new == (AppView {
            mode: Mode::Visual,
            editor: EditorView { cursor_reversed: true, ..old.editor },
            ..old
        }),
        Command::InsertKey(_) => step is Done && new == (AppView { editor: new.editor, ..old }),
        Command::ExecuteQuery => {
            &&& new == old
            &&& step matches Step::Query(q) && q@ == join_lines(old.editor.lines)
        },
        _ => step is Done && new == old,
    }
}

impl<'a> App<'a> {
    /// The client over the given tables: the editor has the focus and the
    /// client is in visual mode; no results yet. The tables list holds the
    /// given names in order, the first one drawn active.
    pub fn new(table_names: Vec<String>) -> (app: App<'a>)
        requires
            table_names@.len() > 0,
        ensures
            app_wf(app@),
            focus_consistent(app@),
            app@.mode == Mode::Visual,
            !app@.should_quit,
            app@.focused == Focus::Editor,
            app@.editor.focused,
            app@.editor.lines == seq![Seq::<char>::empty()],
            app@.editor.spans.len() == 0,
            app@.editor.cursor_row == 0,
            app@.editor.cursor_col == 0,
            app@.editor.cursor_reversed,
            app@.editor.highlight_names == highlight_name_list(),
            app@.results.columns.len() == 0,
            app@.results.values.len() == 0,
            !app@.results.focused,
            app@.tables.items.len() == table_names@.len(),
            app@.tables.items[0] == (ItemView { style: active_style_spec(), ..table_item_view(table_names@[0]) }),
            forall|i: int|
                1 <= i < table_names@.len() ==> #[trigger] app@.tables.items[i] == table_item_view(
                    table_names@[i],
                ),
            app@.tables.active_idx == 0,
            app@.tabs.items.len() == 2,
            app@.tabs.items[0].name == crate::tabs::editor_tab_name(),
            app@.tabs.items[1].name == crate::tabs::tables_tab_name(),
            app@.tabs.active_idx == 0,
            !app@.tabs.focused,
    {
        let mut editor = Editor::new();
        editor.take_focus();
        App {
            results: Results::new(),
            mode: Mode::Visual,
            should_quit: false,
            focused: Focus::Editor,
            tabs: SideTabs::new(),
            tables: Tables::new(table_names),
            editor,
        }
    }

    /// Shows the result of a query.
    pub fn user_query(&mut self, columns: Vec<String>, values: Vec<Vec<String>>)
        ensures
            final(self)@.results.columns == columns@,
            final(self)@.results.values == crate::results::rows_view(values@),
            final(self)@.results.focused == old(self)@.results.focused,
            final(self)@.mode == old(self)@.mode,
            final(self)@.should_quit == old(self)@.should_quit,
            final(self)@.focused == old(self)@.focused,
            final(self)@.tabs == old(self)@.tabs,
            final(self)@.tables == old(self)@.tables,
            final(self)@.editor == old(self)@.editor,
    {
        self.results.set_results(columns, values);
    }

    /// Draws the border of pane `f` as focused (`on`) or not.
    fn set_focus_flag(&mut self, f: Focus, on: bool)
        ensures
            final(self)@ == with_focus_flag(old(self)@, f, on),
    {
        match f {
            Focus::Results => {
                if on {
                    self.results.take_focus();
                } else {
                    self.results.lose_focus();
                }
            },
            Focus::Editor => {
                if on {
                    self.editor.take_focus();
                } else {
                    self.editor.lose_focus();
                }
            },
            Focus::SideTab => {
                if on {
                    self.tabs.list.take_focus();
                } else {
                    self.tabs.list.lose_focus();
                }
            },
            Focus::Tables => {},
        }
    }

    /// Moves the focus to pane `focus`.
    pub fn set_focus(&mut self, focus: Focus)
        ensures
            final(self)@ == focus_set(old(self)@, focus),
    {
        let current = self.focused;
        self.set_focus_flag(current, false);
        self.focused = focus;
        self.set_focus_flag(focus, true);
    }

    /// Moves the cursor of pane `focus` in `direction`: the editor's cursor
    /// moves, the results scroll, the tab bar moves down; other moves do
    /// nothing.
    pub fn move_in(&mut self, focus: Focus, direction: MoveDirection)
        requires
            app_wf(old(self)@),
            move_allowed(old(self)@, focus, direction),
        ensures
            app_wf(final(self)@),
            focus_consistent(old(self)@) ==> focus_consistent(final(self)@),
            final(self)@ == (AppView { editor: final(self)@.editor, ..moved_in(old(self)@, focus, direction) }),
            focus == Focus::Editor ==> editor_cursor_moved(old(self)@.editor, final(self)@.editor, direction),
            focus != Focus::Editor ==> final(self)@.editor == old(self)@.editor,
    {
        match focus {
            Focus::Editor => {
                self.editor.move_cursor(direction);
            },
            Focus::SideTab => {
                match direction {
                    MoveDirection::Down => self.tabs.list.move_cursor(direction),
                    _ => {},
                }
            },
            Focus::Results => {
                self.results.move_cursor(direction);
            },
            Focus::Tables => {},
        }
    }

    /// Carries out a command:
    /// Exit stops the client; EnterInsertMode and EnterVisualMode switch the
    /// mode and the cursor's look; InsertKey types the key into the editor
    /// and highlights the text; ExecuteQuery asks for the editor's text to
    /// be run; the other commands do nothing.
    pub fn run_command(&mut self, cmd: Command) -> (step: Step)
        requires
            app_wf(old(self)@),
        ensures
            app_wf(final(self)@),
            focus_consistent(old(self)@) ==> focus_consistent(final(self)@),
            command_done(old(self)@, final(self)@, cmd, step),
            cmd matches Command::InsertKey(key) ==> key_typed(old(self).editor, key, final(self)@.editor),
    {
        match cmd {
            Command::Exit => {
                self.should_quit = true;
                Step::Done
            },
            Command::EnterInsertMode => {
                self.mode = Mode::Insert;
                self.editor.unreverse_cursor();
                Step::Done
            },
            Command::EnterVisualMode => {
                self.mode = Mode::Visual;
                self.editor.reverse_cursor();
                Step::Done
            },
            Command::InsertKey(key) => {
                self.editor.input_key(key);
                Step::Done
            },
            Command::ExecuteQuery => Step::Query(self.editor.content()),
            _ => Step::Done,
        }
    }

    /// Turns a key into a command for the pane with the focus and the
    /// current mode, and carries it out.
    pub fn handle_key(&mut self, key: KeyInput) -> (step: Step)
        requires
            app_wf(old(self)@),
        ensures
            app_wf(final(self)@),
            focus_consistent(old(self)@) ==> focus_consistent(final(self)@),
            command_done(
                old(self)@,
                final(self)@,
                crate::command::command_of(old(self).focused, old(self).mode, key),
                step,
            ),
            crate::command::command_of(old(self).focused, old(self).mode, key) matches Command::InsertKey(k)
                ==> key_typed(old(self).editor, k, final(self)@.editor),
    {
        let cmd = Command::from_key(&self.focused, &self.mode, key);
        self.run_command(cmd)
    }
}

} // verus!
