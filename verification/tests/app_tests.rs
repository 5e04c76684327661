use pgterm::app::{App, Step};
use pgterm::classic;
use pgterm::command::{Command, Focus, KeyCode, KeyInput, KeyKind, Mode, MoveDirection, CONTROL, NONE};
use pgterm::editor::{join_with_newlines, Editor};
use pgterm::playground;
use pgterm::styles::{fg, SpanColor};

fn key(code: KeyCode, modifiers: u8) -> KeyInput {
    let ct_code = match code {
        KeyCode::Char(c) => crossterm::event::KeyCode::Char(c),
        KeyCode::Esc => crossterm::event::KeyCode::Esc,
        KeyCode::Enter => crossterm::event::KeyCode::Enter,
        KeyCode::Backspace => crossterm::event::KeyCode::Backspace,
        KeyCode::Left => crossterm::event::KeyCode::Left,
        KeyCode::Down => crossterm::event::KeyCode::Down,
        _ => crossterm::event::KeyCode::Null,
    };
    let event = crossterm::event::KeyEvent::new(
        ct_code,
        crossterm::event::KeyModifiers::from_bits_truncate(modifiers),
    );
    KeyInput { code, modifiers, kind: KeyKind::Press, event }
}

fn typed(c: char) -> KeyInput {
    key(KeyCode::Char(c), NONE)
}

fn row(xs: &[&str]) -> Vec<String> {
    xs.iter().map(|x| x.to_string()).collect()
}

#[test]
fn join_lines_with_breaks() {
    assert_eq!(join_with_newlines(&vec![]), "");
    assert_eq!(join_with_newlines(&row(&["a"])), "a");
    assert_eq!(join_with_newlines(&row(&["a", "", "b"])), "a\n\nb");
}

#[test]
fn editor_types_and_highlights() {
    let mut e = Editor::new();
    assert_eq!(e.content(), "");
    assert!(e.line().is_empty());
    for c in "SELECT 1".chars() {
        e.input_key(typed(c));
    }
    assert_eq!(e.content(), "SELECT 1");
    let spans = e.line();
    assert_eq!(spans.iter().map(|s| s.text.clone()).collect::<String>(), "SELECT 1");
    assert_eq!(spans[0].text, "SELECT");
    assert_eq!(spans[0].style, fg(SpanColor::Cyan));
    e.input_key(key(KeyCode::Enter, NONE));
    e.input_key(typed('2'));
    assert_eq!(e.content(), "SELECT 1\n2");
    e.move_cursor(MoveDirection::Up);
    assert_eq!(e.content(), "SELECT 1\n2");
    e.input_key(key(KeyCode::Backspace, NONE));
    assert_eq!(e.content(), "ELECT 1\n2");
}

#[test]
fn editor_focus_flag() {
    let mut e = Editor::new();
    assert!(!e.is_focused());
    e.take_focus();
    assert!(e.is_focused());
    e.reverse_cursor();
    e.unreverse_cursor();
    assert!(e.is_focused());
    e.lose_focus();
    assert!(!e.is_focused());
}

#[test]
fn app_starts_in_editor_visual_mode() {
    let app = App::new(row(&["users"]));
    assert_eq!(app.mode, Mode::Visual);
    assert_eq!(app.focused, Focus::Editor);
    assert!(app.editor.is_focused());
    assert!(!app.results.is_focused());
    assert!(!app.should_quit);
    assert_eq!(app.tables.list.len(), 1);
}

#[test]
fn app_insert_type_and_query() {
    let mut app = App::new(row(&["users"]));
    assert!(matches!(app.handle_key(typed('i')), Step::Done));
    assert_eq!(app.mode, Mode::Insert);
    for c in "select 1".chars() {
        assert!(matches!(app.handle_key(typed(c)), Step::Done));
    }
    assert!(matches!(app.handle_key(key(KeyCode::Char('c'), CONTROL)), Step::Done));
    assert_eq!(app.mode, Mode::Visual);
    match app.handle_key(typed('s')) {
        Step::Query(q) => assert_eq!(q, "select 1"),
        _ => panic!("expected a query"),
    }
    app.user_query(row(&["?column?"]), vec![row(&["1"])]);
    assert_eq!(app.results.values()[0], row(&["1"]));
    assert!(matches!(app.handle_key(key(KeyCode::Esc, NONE)), Step::Done));
    assert!(app.should_quit);
}

#[test]
fn app_focus_moves_and_results_scroll() {
    let mut app = App::new(row(&["users", "orders"]));
    assert_eq!(app.tables.list.len(), 2);
    app.user_query(row(&["a", "b"]), vec![row(&["1", "2"]), row(&["3", "4"])]);
    assert!(matches!(app.run_command(Command::MoveFocus(MoveDirection::Down)), Step::Done));
    assert_eq!(app.focused, Focus::Editor);
    assert!(app.editor.is_focused());
    assert!(!app.results.is_focused());
    app.set_focus(Focus::Results);
    assert_eq!(app.focused, Focus::Results);
    assert!(app.results.is_focused());
    assert!(!app.editor.is_focused());
    assert!(matches!(app.run_command(Command::MoveCursor(MoveDirection::Down)), Step::Done));
    assert_eq!(app.results.values()[0], row(&["1", "2"]));
    app.move_in(Focus::Results, MoveDirection::Down);
    assert_eq!(app.results.values()[0], row(&["3", "4"]));
    app.move_in(Focus::Results, MoveDirection::Right);
    assert_eq!(app.results.columns(), &row(&["b", "a"]));
    app.set_focus(Focus::SideTab);
    assert_eq!(app.focused, Focus::SideTab);
    assert!(app.tabs.list.is_focused());
    assert!(!app.results.is_focused());
    app.move_in(Focus::SideTab, MoveDirection::Up);
    assert_eq!(app.tabs.active_tab(), " editor ");
    app.move_in(Focus::SideTab, MoveDirection::Down);
    assert_eq!(app.tabs.active_tab(), " tables ");
    app.set_focus(Focus::Editor);
    assert_eq!(app.focused, Focus::Editor);
    assert!(app.editor.is_focused());
    assert!(!app.tabs.list.is_focused());
    app.set_focus(Focus::Tables);
    assert_eq!(app.focused, Focus::Tables);
    assert!(!app.editor.is_focused());
    assert!(matches!(app.run_command(Command::ExpandTable), Step::Done));
    assert_eq!(app.tables.list.len(), 2);
    assert!(matches!(app.run_command(Command::TODO), Step::Done));
    assert!(matches!(app.run_command(Command::MoveFocus(MoveDirection::Left)), Step::Done));
    assert_eq!(app.focused, Focus::Tables);
}

#[test]
fn editor_typed_char_goes_in_at_cursor() {
    let mut e = Editor::new();
    e.input_key(typed('a'));
    e.input_key(typed('c'));
    e.move_cursor(MoveDirection::Left);
    e.input_key(typed('b'));
    assert_eq!(e.content(), "abc");
    e.input_key(key(KeyCode::Char('q'), CONTROL));
    assert_eq!(e.content(), "abc");
    let all: String = e.line().iter().map(|s| s.text.clone()).collect();
    assert_eq!(all, "abc");
}

#[test]
fn classic_app_keys() {
    let mut app = classic::App::new(row(&["users"]));
    assert_eq!(app.focus, classic::Section::Editor);
    app.handle_key(typed('i'));
    assert_eq!(app.mode, Mode::Insert);
    for c in "select".chars() {
        app.handle_key(typed(c));
    }
    assert_eq!(app.editor.content(), "select");
    app.handle_key(key(KeyCode::Esc, NONE));
    assert_eq!(app.mode, Mode::Visual);
    match app.handle_key(key(KeyCode::Char('s'), CONTROL)) {
        classic::KeyOutcome::Query(q) => assert_eq!(q, "select"),
        _ => panic!("expected a query"),
    }
    app.user_query(row(&["x", "y"]), vec![row(&["1", "2"]), row(&["3", "4"]), row(&["5", "6"])]);
    app.handle_key(key(KeyCode::Char('j'), CONTROL));
    assert_eq!(app.focus, classic::Section::Results);
    app.handle_key(typed('k'));
    assert_eq!(app.results, vec![row(&["3", "4"]), row(&["5", "6"]), row(&["1", "2"])]);
    app.handle_key(typed('j'));
    assert_eq!(app.results, vec![row(&["1", "2"]), row(&["3", "4"]), row(&["5", "6"])]);
    app.handle_key(typed('w'));
    assert_eq!(app.results[0], row(&["2", "1"]));
    app.handle_key(typed('b'));
    assert_eq!(app.results[0], row(&["1", "2"]));
    assert_eq!(app.result_columns, row(&["x", "y"]));
    app.handle_key(key(KeyCode::Char('k'), CONTROL));
    assert_eq!(app.focus, classic::Section::Editor);
    app.handle_key(key(KeyCode::Char('c'), CONTROL));
    assert!(app.should_quit);
}

#[test]
fn playground_keys() {
    let mut app = playground::App::new()
        .items(row(&["1", "2", "3"]))
        .list_state(Some(0), 0)
        .ball_state(10, 10);
    app.handle_key_press(&typed('j'));
    assert_eq!(app.selected, Some(1));
    app.handle_key_press(&typed('k'));
    app.handle_key_press(&typed('k'));
    assert_eq!(app.selected, Some(0));
    app.handle_key_press(&typed('G'));
    assert_eq!(app.selected, Some(usize::MAX));
    app.handle_key_press(&key(KeyCode::Down, NONE));
    assert_eq!((app.ball_x, app.ball_y), (10, 11));
    app.select(2);
    assert_eq!(app.selected, Some(2));
    app.push_item("4".to_string());
    assert_eq!(app.items.len(), 4);
    assert!(playground::is_press(&typed('x')));
    app.handle_key_press(&key(KeyCode::Esc, NONE));
    assert!(app.should_quit);
    let mut fresh = playground::App::new();
    fresh.handle_key_press(&typed('j'));
    assert_eq!(fresh.selected, Some(0));
    let mut none = playground::App::new();
    none.handle_key_press(&typed('k'));
    assert_eq!(none.selected, Some(usize::MAX));
    let ball = playground::Ball::new().style(fg(SpanColor::Gray));
    assert_eq!(ball.style, fg(SpanColor::Gray));
}

#[test]
fn editor_cursor_crosses_line_ends() {
    let mut e = Editor::new();
    for c in "ab".chars() {
        e.input_key(typed(c));
    }
    e.input_key(key(KeyCode::Enter, NONE));
    e.input_key(typed('c'));
    assert_eq!(e.content(), "ab\nc");
    e.move_cursor(MoveDirection::Left);
    e.move_cursor(MoveDirection::Left);
    e.input_key(typed('x'));
    assert_eq!(e.content(), "abx\nc");
    e.move_cursor(MoveDirection::Right);
    e.input_key(typed('y'));
    assert_eq!(e.content(), "abx\nyc");
    e.move_cursor(MoveDirection::Right);
    e.move_cursor(MoveDirection::Right);
    e.input_key(typed('z'));
    assert_eq!(e.content(), "abx\nycz");
    assert!(e.line().iter().all(|s| !s.text.is_empty()));
}

#[test]
fn key_inputs_agree_with_their_events() {
    assert!(typed('a').is_consistent());
    assert!(key(KeyCode::Char('s'), CONTROL).is_consistent());
    assert!(key(KeyCode::Esc, NONE).is_consistent());
    let mut odd = typed('a');
    odd.code = KeyCode::Char('b');
    assert!(!odd.is_consistent());
    let mut odd = typed('a');
    odd.modifiers = CONTROL;
    assert!(!odd.is_consistent());
}
