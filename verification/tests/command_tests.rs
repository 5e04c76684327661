use pgterm::command::{Command, Focus, KeyCode, KeyInput, KeyKind, Mode, MoveDirection, CONTROL, NONE, SHIFT};

fn key(code: KeyCode, modifiers: u8) -> KeyInput {
    let ct_code = match code {
        KeyCode::Char(c) => crossterm::event::KeyCode::Char(c),
        KeyCode::Esc => crossterm::event::KeyCode::Esc,
        KeyCode::Enter => crossterm::event::KeyCode::Enter,
        _ => crossterm::event::KeyCode::Null,
    };
    let event = crossterm::event::KeyEvent::new(
        ct_code,
        crossterm::event::KeyModifiers::from_bits_truncate(modifiers),
    );
    KeyInput { code, modifiers, kind: KeyKind::Press, event }
}

#[test]
fn esc_exits_everywhere() {
    for f in [Focus::SideTab, Focus::Editor, Focus::Results, Focus::Tables] {
        for m in [Mode::Insert, Mode::Visual] {
            assert!(matches!(Command::from_key(&f, &m, key(KeyCode::Esc, NONE)), Command::Exit));
        }
    }
}

#[test]
fn control_chords_move_focus() {
    let c = Command::from_key(&Focus::Editor, &Mode::Insert, key(KeyCode::Char('j'), CONTROL));
    assert!(matches!(c, Command::MoveFocus(MoveDirection::Down)));
    let c = Command::from_key(&Focus::Results, &Mode::Visual, key(KeyCode::Char('h'), CONTROL));
    assert!(matches!(c, Command::MoveFocus(MoveDirection::Left)));
    let c = Command::from_key(&Focus::Tables, &Mode::Visual, key(KeyCode::Char('l'), CONTROL));
    assert!(matches!(c, Command::MoveFocus(MoveDirection::Right)));
    let c = Command::from_key(&Focus::SideTab, &Mode::Insert, key(KeyCode::Char('k'), CONTROL));
    assert!(matches!(c, Command::MoveFocus(MoveDirection::Up)));
}

#[test]
fn insert_mode_types_and_ctrl_c_leaves() {
    let c = Command::from_key(&Focus::Editor, &Mode::Insert, key(KeyCode::Char('c'), CONTROL));
    assert!(matches!(c, Command::EnterVisualMode));
    let c = Command::from_key(&Focus::Editor, &Mode::Insert, key(KeyCode::Char('j'), NONE));
    assert!(matches!(c, Command::InsertKey(k) if k.code == KeyCode::Char('j')));
    let c = Command::from_key(&Focus::Editor, &Mode::Insert, key(KeyCode::Char('s'), SHIFT));
    assert!(matches!(c, Command::InsertKey(_)));
}

#[test]
fn visual_mode_editor_commands() {
    let c = Command::from_key(&Focus::Editor, &Mode::Visual, key(KeyCode::Char('i'), NONE));
    assert!(matches!(c, Command::EnterInsertMode));
    let c = Command::from_key(&Focus::Editor, &Mode::Visual, key(KeyCode::Char('s'), CONTROL));
    assert!(matches!(c, Command::ExecuteQuery));
    let c = Command::from_key(&Focus::Editor, &Mode::Visual, key(KeyCode::Char('l'), NONE));
    assert!(matches!(c, Command::MoveCursor(MoveDirection::Right)));
}

#[test]
fn tables_enter_expands() {
    let c = Command::from_key(&Focus::Tables, &Mode::Insert, key(KeyCode::Enter, NONE));
    assert!(matches!(c, Command::ExpandTable));
    let c = Command::from_key(&Focus::Results, &Mode::Visual, key(KeyCode::Enter, NONE));
    assert!(matches!(c, Command::TODO));
}

#[test]
fn vim_keys_move_cursor_elsewhere() {
    let c = Command::from_key(&Focus::Results, &Mode::Insert, key(KeyCode::Char('j'), NONE));
    assert!(matches!(c, Command::MoveCursor(MoveDirection::Down)));
    let c = Command::from_key(&Focus::Tables, &Mode::Visual, key(KeyCode::Char('h'), NONE));
    assert!(matches!(c, Command::MoveCursor(MoveDirection::Left)));
    let c = Command::from_key(&Focus::SideTab, &Mode::Visual, key(KeyCode::Char('k'), SHIFT));
    assert!(matches!(c, Command::MoveCursor(MoveDirection::Up)));
    let c = Command::from_key(&Focus::SideTab, &Mode::Visual, key(KeyCode::Char('x'), NONE));
    assert!(matches!(c, Command::TODO));
    let c = Command::from_key(&Focus::Results, &Mode::Visual, key(KeyCode::Char('s'), NONE));
    assert!(matches!(c, Command::TODO));
}

#[test]
fn from_trait_agrees() {
    let f = Focus::Editor;
    let m = Mode::Visual;
    let c: Command = Command::from((&f, &m, key(KeyCode::Char('i'), NONE)));
    assert!(matches!(c, Command::EnterInsertMode));
}
