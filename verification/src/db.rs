use vstd::prelude::*;
use crate::pgtype::{PgCell, cell_text, stringify};

verus! {

/// The query that lists the tables the user defined: all tables outside the
/// system schemas.
pub const TABLES_QUERY: &'static str = "SELECT table_name FROM information_schema.tables WHERE table_schema NOT IN ('pg_catalog', 'information_schema');";

/// A row that a query returned: the names of its columns and its cells, in
/// the same order.
pub struct RowData {
    pub columns: Vec<String>,
    pub cells: Vec<PgCell>,
}

/// The text of cell `j` of row `i`.
pub open spec fn cell_text_at(rows: Seq<RowData>, i: int, j: int) -> Seq<char> {
    cell_text(rows[i].cells@[j])
}

/// The column names of the first row; none when there are no rows.
pub fn col_names(rows: &Vec<RowData>) -> (names: Vec<String>)
    ensures
        rows@.len() == 0 ==> names@ == Seq::<String>::empty(),
        rows@.len() > 0 ==> names@ == rows@[0].columns@,
{
    if rows.len() > 0 {
        rows[0].columns.clone()
    } else {
        Vec::new()
    }
}

/// What a query returned as texts: the column names of the first row, and
/// each row's cells as the texts they are shown as.
pub fn query_results(rows: &Vec<RowData>) -> (r: (Vec<String>, Vec<Vec<String>>))
    ensures
        rows@.len() == 0 ==> r.0@ == Seq::<String>::empty(),
        rows@.len() > 0 ==> r.0@ == rows@[0].columns@,
        r.1@.len() == rows@.len(),
        forall|i: int| 0 <= i < rows@.len() ==> #[trigger] r.1@[i]@.len() == rows@[i].cells@.len(),
        forall|i: int, j: int|
            0 <= i < rows@.len() && 0 <= j < rows@[i].cells@.len() ==> #[trigger] r.1@[i]@[j]@
                == cell_text_at(rows@, i, j),
{
    let cols = col_names(rows);
    let mut strs: Vec<Vec<String>> = Vec::new();
    let mut i: usize = 0;
    while i < rows.len()
        invariant
            i <= rows@.len(),
            strs@.len() == i,
            forall|k: int| 0 <= k < i ==> #[trigger] strs@[k]@.len() == rows@[k].cells@.len(),
            forall|k: int, j: int|
                0 <= k < i && 0 <= j < rows@[k].cells@.len() ==> #[trigger] strs@[k]@[j]@
                    == cell_text_at(rows@, k, j),
        decreases rows@.len() - i,
    {
        strs.push(stringify(&rows[i].cells));
        i = i + 1;
    }
    (cols, strs)
}

/// The first cell of each row, in order.
pub fn table_names(rows: &Vec<Vec<String>>) -> (names: Vec<String>)
    requires
        forall|i: int| 0 <= i < rows@.len() ==> #[trigger] rows@[i]@.len() > 0,
    ensures
        names@.len() == rows@.len(),
        forall|i: int| 0 <= i < rows@.len() ==> #[trigger] names@[i] == rows@[i]@[0],
{
    let mut names: Vec<String> = Vec::new();
    let mut i: usize = 0;
    while i < rows.len()
        invariant
            i <= rows@.len(),
            names@.len() == i,
            forall|k: int| 0 <= k < rows@.len() ==> #[trigger] rows@[k]@.len() > 0,
            forall|k: int| 0 <= k < i ==> #[trigger] names@[k] == rows@[k]@[0],
        decreases rows@.len() - i,
    {
        assert(rows@[i as int]@.len() > 0);
        names.push(rows[i][0].clone());
        i = i + 1;
    }
    names
}

} // verus!
