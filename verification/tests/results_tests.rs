use pgterm::command::MoveDirection;
use pgterm::results::Results;
use pgterm::seqs::{rotate_left_one, rotate_right_one};

fn s(x: &str) -> String {
    x.to_string()
}

fn row(xs: &[&str]) -> Vec<String> {
    xs.iter().map(|x| x.to_string()).collect()
}

fn sample() -> Results {
    let mut r = Results::new();
    r.set_results(row(&["id", "name"]), vec![row(&["1", "a"]), row(&["2", "b"]), row(&["3", "c"])]);
    r
}

#[test]
fn rotate_helpers_move_one_place() {
    let mut v = vec![1, 2, 3];
    rotate_left_one(&mut v);
    assert_eq!(v, vec![2, 3, 1]);
    rotate_right_one(&mut v);
    assert_eq!(v, vec![1, 2, 3]);
    rotate_right_one(&mut v);
    assert_eq!(v, vec![3, 1, 2]);
    let mut e: Vec<u8> = Vec::new();
    rotate_left_one(&mut e);
    rotate_right_one(&mut e);
    assert!(e.is_empty());
}

#[test]
fn new_results_are_empty_and_unfocused() {
    let r = Results::new();
    assert!(r.columns().is_empty());
    assert!(r.values().is_empty());
    assert!(!r.is_focused());
}

#[test]
fn set_results_replaces_table() {
    let r = sample();
    assert_eq!(r.columns(), &row(&["id", "name"]));
    assert_eq!(r.values().len(), 3);
    assert_eq!(r.values()[2], row(&["3", "c"]));
}

#[test]
fn move_up_and_down_rotate_rows() {
    let mut r = sample();
    r.move_cursor(MoveDirection::Up);
    assert_eq!(r.values()[0], row(&["3", "c"]));
    assert_eq!(r.values()[1], row(&["1", "a"]));
    r.move_cursor(MoveDirection::Down);
    assert_eq!(r.values()[0], row(&["1", "a"]));
    r.move_cursor(MoveDirection::Down);
    assert_eq!(r.values()[0], row(&["2", "b"]));
    assert_eq!(r.values()[2], row(&["1", "a"]));
}

#[test]
fn move_left_and_right_rotate_columns_and_cells() {
    let mut r = sample();
    r.move_cursor(MoveDirection::Right);
    assert_eq!(r.columns(), &row(&["name", "id"]));
    assert_eq!(r.values()[0], row(&["a", "1"]));
    r.move_cursor(MoveDirection::Left);
    assert_eq!(r.columns(), &row(&["id", "name"]));
    assert_eq!(r.values()[1], row(&["2", "b"]));
}

#[test]
fn scroll_right_then_left_restores() {
    let mut r = Results::new();
    r.set_results(row(&["a", "b", "c"]), vec![row(&["1", "2", "3"])]);
    r.scroll_right();
    assert_eq!(r.columns(), &row(&["b", "c", "a"]));
    assert_eq!(r.values()[0], row(&["2", "3", "1"]));
    r.scroll_left();
    assert_eq!(r.columns(), &row(&["a", "b", "c"]));
    assert_eq!(r.values()[0], row(&["1", "2", "3"]));
    r.scroll_left();
    assert_eq!(r.columns(), &row(&["c", "a", "b"]));
}

#[test]
fn move_without_rows_does_nothing() {
    let mut r = Results::new();
    r.set_results(vec![s("x")], Vec::new());
    r.move_cursor(MoveDirection::Right);
    assert_eq!(r.columns(), &vec![s("x")]);
    r.move_cursor(MoveDirection::Up);
    assert!(r.values().is_empty());
}

#[test]
fn focus_flag_follows_take_and_lose() {
    let mut r = sample();
    r.take_focus();
    assert!(r.is_focused());
    r.lose_focus();
    assert!(!r.is_focused());
    assert_eq!(r.values().len(), 3);
}
