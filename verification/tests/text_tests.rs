use pgterm::db::{col_names, query_results, table_names, RowData, TABLES_QUERY};
use pgterm::highlight::highlight_color;
use pgterm::highlight::highlight_names;
use pgterm::highlight::spans_from_events;
use pgterm::highlight::HighlightEvent;
use pgterm::pgtype::{int4_to_string, stringify_type_info, PgCell};
use pgterm::styles::{fg, SpanColor, StyleSpec, Styles, TextColor};

#[test]
fn text_colors_are_exact() {
    let s = TextColor::BurntOrange.highlight("x".to_string());
    assert_eq!(s.text, "x");
    assert_eq!(s.style, StyleSpec { fg: Some(SpanColor::Rgb(240, 120, 100)), bg: None, bold: false });
    assert_eq!(TextColor::Cyan.span_color(), SpanColor::Cyan);
    assert_eq!(TextColor::Magenta.span_color(), SpanColor::Magenta);
    assert_eq!(TextColor::Gray.span_color(), SpanColor::Gray);
    assert_eq!(TextColor::Blue1.span_color(), SpanColor::Rgb(103, 85, 230));
    assert_eq!(TextColor::Todo.span_color(), SpanColor::Rgb(90, 25, 210));
    assert_eq!(TextColor::Todo2.span_color(), SpanColor::Rgb(20, 25, 180));
}

#[test]
fn styles_new_values() {
    let s = Styles::new();
    assert_eq!(s.focused_border, fg(SpanColor::Gray));
    assert_eq!(s.unfocused_border, StyleSpec { fg: None, bg: None, bold: false });
    assert_eq!(s.active_tab, StyleSpec { fg: Some(SpanColor::Black), bg: Some(SpanColor::White), bold: true });
    assert_eq!(s.inactive_tab, fg(SpanColor::DarkGray));
}

#[test]
fn highlight_colors_by_index() {
    assert_eq!(highlight_color(33), TextColor::BurntOrange);
    assert_eq!(highlight_color(14), TextColor::Cyan);
    assert_eq!(highlight_color(38), TextColor::Magenta);
    assert_eq!(highlight_color(46), TextColor::Blue1);
    assert_eq!(highlight_color(48), TextColor::Todo);
    assert_eq!(highlight_color(40), TextColor::Todo2);
    assert_eq!(highlight_color(0), TextColor::Gray);
}

#[test]
fn highlight_names_indices() {
    let n = highlight_names();
    assert_eq!(n.len(), 52);
    assert_eq!(n[14], "keyword");
    assert_eq!(n[33], "operator");
    assert_eq!(n[51], "variable.parameter");
}

#[test]
fn spans_from_events_follows_colors() {
    let text = "SELECT a";
    let events = vec![
        HighlightEvent::Source { start: 0, end: 0 },
        HighlightEvent::HighlightStart(14),
        HighlightEvent::Source { start: 0, end: 6 },
        HighlightEvent::HighlightEnd,
        HighlightEvent::Source { start: 6, end: 7 },
        HighlightEvent::HighlightStart(99),
        HighlightEvent::Source { start: 7, end: 8 },
    ];
    let spans = spans_from_events(text, &events).unwrap();
    assert_eq!(spans.len(), 4);
    assert_eq!(spans[0].text, "");
    assert_eq!(spans[0].style, fg(SpanColor::Rgb(240, 120, 100)));
    assert_eq!(spans[1].text, "SELECT");
    assert_eq!(spans[1].style, fg(SpanColor::Cyan));
    assert_eq!(spans[2].text, " ");
    assert_eq!(spans[2].style, fg(SpanColor::Cyan));
    assert_eq!(spans[3].text, "a");
    assert_eq!(spans[3].style, fg(SpanColor::Gray));
}

#[test]
fn spans_from_events_rejects_bad_ranges() {
    let text = "é";
    assert!(spans_from_events(text, &vec![HighlightEvent::Source { start: 0, end: 1 }]).is_none());
    assert!(spans_from_events(text, &vec![HighlightEvent::Source { start: 0, end: 3 }]).is_none());
    assert!(spans_from_events(text, &vec![HighlightEvent::Source { start: 2, end: 0 }]).is_none());
    let ok = spans_from_events(text, &vec![HighlightEvent::Source { start: 0, end: 2 }]).unwrap();
    assert_eq!(ok[0].text, "é");
}

#[test]
fn highlighter_colors_sql_keywords() {
    let mut p = pgterm::highlight::HighlightParser::new();
    assert!(p.spans().is_empty());
    p.highlight("SELECT 1".to_string());
    let spans = p.spans();
    assert!(!spans.is_empty());
    let all: String = spans.iter().map(|s| s.text.clone()).collect();
    assert_eq!(all, "SELECT 1");
    assert!(spans.iter().all(|s| !s.text.is_empty()));
    let select = spans.iter().find(|s| s.text == "SELECT").expect("a span of the keyword");
    assert_eq!(select.style, fg(SpanColor::Cyan));
}

#[test]
fn highlighting_empty_text_clears_spans() {
    let mut p = pgterm::highlight::HighlightParser::new();
    p.highlight("SELECT 1".to_string());
    assert!(!p.spans().is_empty());
    p.highlight(String::new());
    assert_eq!(p.spans().len(), 0);
}

#[test]
fn highlighting_depends_on_text_alone() {
    let mut p = pgterm::highlight::HighlightParser::new();
    let mut q = pgterm::highlight::HighlightParser::new();
    p.highlight("insert into t values ('x', 2)".to_string());
    q.highlight("SELECT a FROM b".to_string());
    let text = "SELECT a, 'b' FROM c WHERE d = 1".to_string();
    p.highlight(text.clone());
    q.highlight(text.clone());
    let pieces = |spans: &Vec<pgterm::styles::StyledText>| {
        spans.iter().map(|s| (s.text.clone(), s.style.clone())).collect::<Vec<_>>()
    };
    let first = pieces(p.spans());
    assert_eq!(first, pieces(q.spans()));
    p.highlight(text);
    assert_eq!(pieces(p.spans()), first);
    let all: String = first.iter().map(|s| s.0.clone()).collect();
    assert_eq!(all, "SELECT a, 'b' FROM c WHERE d = 1");
}

#[test]
fn int4_decimal() {
    assert_eq!(int4_to_string(0), "0");
    assert_eq!(int4_to_string(42), "42");
    assert_eq!(int4_to_string(-7), "-7");
    assert_eq!(int4_to_string(1000), "1000");
    assert_eq!(int4_to_string(i32::MAX), "2147483647");
    assert_eq!(int4_to_string(i32::MIN), "-2147483648");
}

#[test]
fn cells_as_text() {
    assert_eq!(stringify_type_info(&PgCell::Text("hi".to_string())), "hi");
    assert_eq!(stringify_type_info(&PgCell::Name("users".to_string())), "users");
    assert_eq!(stringify_type_info(&PgCell::Int4(-12)), "-12");
    assert_eq!(stringify_type_info(&PgCell::Other), "");
    let row = vec![PgCell::Int4(5), PgCell::Other, PgCell::Text("x".to_string())];
    assert_eq!(pgterm::pgtype::stringify(&row), vec!["5".to_string(), String::new(), "x".to_string()]);
}

#[test]
fn query_results_shape() {
    let rows = vec![
        RowData { columns: vec!["id".to_string(), "name".to_string()], cells: vec![PgCell::Int4(1), PgCell::Text("a".to_string())] },
        RowData { columns: vec!["id".to_string(), "name".to_string()], cells: vec![PgCell::Int4(2), PgCell::Other] },
    ];
    assert_eq!(col_names(&rows), vec!["id".to_string(), "name".to_string()]);
    let (cols, vals) = query_results(&rows);
    assert_eq!(cols, vec!["id".to_string(), "name".to_string()]);
    assert_eq!(vals, vec![vec!["1".to_string(), "a".to_string()], vec!["2".to_string(), String::new()]]);
    let (cols, vals) = query_results(&Vec::new());
    assert!(cols.is_empty() && vals.is_empty());
}

#[test]
fn table_names_take_first_cells() {
    let rows = vec![vec!["users".to_string()], vec!["orders".to_string(), "x".to_string()]];
    assert_eq!(table_names(&rows), vec!["users".to_string(), "orders".to_string()]);
    assert!(TABLES_QUERY.starts_with("SELECT table_name"));
}
