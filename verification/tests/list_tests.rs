use pgterm::command::MoveDirection;
use pgterm::list::{ItemType, List, ListItem};
use pgterm::styles::{active_style, inactive_style, SpanColor, StyleSpec};
use pgterm::tables::Tables;
use pgterm::tabs::SideTabs;

fn item(name: &str) -> ListItem {
    ListItem::new(name.to_string(), inactive_style(), ItemType::Table)
}

fn three() -> List {
    let mut l = List::new("things");
    l.push_item(item("a"));
    l.push_item(item("b"));
    l.push_item(item("c"));
    l
}

fn names(l: &List) -> Vec<String> {
    (0..l.len()).map(|i| l.item(i).name().to_string()).collect()
}

#[test]
fn new_list_is_empty() {
    let l = List::new("things");
    assert_eq!(l.title(), "things");
    assert_eq!(l.len(), 0);
    assert_eq!(l.active_idx(), 0);
    assert!(l.active_item_name().is_none());
    assert!(!l.is_focused());
}

#[test]
fn make_first_active_styles_first() {
    let mut l = three();
    l.make_first_active();
    assert_eq!(l.item(0).style(), active_style());
    assert_eq!(l.item(1).style(), inactive_style());
    assert_eq!(l.active_item_name(), Some("a"));
}

#[test]
fn move_cursor_moves_and_restyles() {
    let mut l = three();
    l.move_cursor(MoveDirection::Down);
    assert_eq!(l.active_idx(), 1);
    assert_eq!(l.item(0).style(), inactive_style());
    assert_eq!(l.item(1).style(), active_style());
    l.move_cursor(MoveDirection::Down);
    l.move_cursor(MoveDirection::Down);
    assert_eq!(l.active_idx(), 2);
    l.move_cursor(MoveDirection::Up);
    assert_eq!(l.active_idx(), 1);
    assert_eq!(l.item(2).style(), inactive_style());
    l.move_cursor(MoveDirection::Left);
    assert_eq!(l.active_idx(), 1);
    l.move_cursor(MoveDirection::Up);
    l.move_cursor(MoveDirection::Up);
    assert_eq!(l.active_idx(), 0);
    assert_eq!(l.active_item_name(), Some("a"));
}

#[test]
fn handle_select_inserts_statement_at_active() {
    let mut l = three();
    l.move_cursor(MoveDirection::Down);
    l.handle_select();
    assert_eq!(names(&l), vec!["a", " ├SELECT *", "b", "c"]);
    assert_eq!(l.item(1).item_type(), ItemType::Statement);
    assert_eq!(l.item(1).style(), StyleSpec { fg: Some(SpanColor::DarkGray), bg: None, bold: false });
}

#[test]
fn expand_inserts_into_given_list() {
    let mut l = three();
    let other = item("z");
    other.expand(&mut l);
    assert_eq!(names(&l), vec![" ├SELECT *", "a", "b", "c"]);
}

#[test]
fn remove_items_drops_after_active() {
    let mut l = three();
    l.push_item(item("d"));
    l.remove_items(2);
    assert_eq!(names(&l), vec!["a", "d"]);
    l.remove_items(0);
    assert_eq!(names(&l), vec!["a", "d"]);
}

#[test]
fn lines_follow_items() {
    let mut l = three();
    l.make_first_active();
    let lines = l.lines();
    assert_eq!(lines.len(), 3);
    assert_eq!(lines[0].text, "a");
    assert_eq!(lines[0].style, active_style());
    assert_eq!(lines[2].text, "c");
}

#[test]
fn active_item_can_be_changed() {
    let mut l = three();
    l.active_item().set_expanded();
    assert!(l.item(0).is_expanded());
    l.active_item().set_collapsed();
    assert!(!l.item(0).is_expanded());
}

#[test]
fn focus_of_list() {
    let mut l = three();
    l.take_focus();
    assert!(l.is_focused());
    l.lose_focus();
    assert!(!l.is_focused());
}

#[test]
fn tables_new_lists_names() {
    let t = Tables::new(vec!["users".to_string(), "orders".to_string()]);
    assert_eq!(t.list.title(), "tables");
    assert_eq!(names(&t.list), vec!["users", "orders"]);
    assert_eq!(t.list.item(0).style(), active_style());
    assert_eq!(t.list.item(1).style(), inactive_style());
    assert_eq!(t.list.item(1).item_type(), ItemType::Table);
}

#[test]
fn tables_expand_then_collapse_restores() {
    let mut t = Tables::new(vec!["users".to_string(), "orders".to_string()]);
    t.expand_focused();
    assert_eq!(names(&t.list), vec!["users", " ├SELECT *", "orders"]);
    assert!(t.list.item(0).is_expanded());
    t.expand_focused();
    assert_eq!(names(&t.list), vec!["users", "orders"]);
    assert!(!t.list.item(0).is_expanded());
}

#[test]
fn side_tabs_start_on_editor() {
    let mut tabs = SideTabs::new();
    assert_eq!(tabs.list.title(), "");
    assert_eq!(names(&tabs.list), vec![" editor ", " tables "]);
    assert_eq!(tabs.active_tab(), " editor ");
    tabs.list.move_cursor(MoveDirection::Down);
    assert_eq!(tabs.active_tab(), " tables ");
}
