use vstd::prelude::*;
use crate::command::MoveDirection;
use crate::seqs::{rotl, rotr, lemma_rotr_rotl, rotate_left_one, rotate_right_one};

verus! {

/// The result set of the last query: its column names, its rows of cells,
/// and whether the results pane has the focus.
pub struct Results {
    columns: Vec<String>,
    values: Vec<Vec<String>>,
    focused: bool,
}

/// What a `Results` holds, as mathematical values.
pub struct ResultsView {
    pub columns: Seq<String>,
    pub values: Seq<Seq<String>>,
    pub focused: bool,
}

/// The rows of a table, each row by its cells.
pub open spec fn rows_view(rows: Seq<Vec<String>>) -> Seq<Seq<String>> {
    rows.map_values(|r: Vec<String>| r@)
}

/// Each row moved one cell to the left (its first cell goes to its end).
pub open spec fn rows_rotl(rows: Seq<Seq<String>>) -> Seq<Seq<String>> {
    rows.map_values(|r: Seq<String>| rotl(r))
}

/// Each row moved one cell to the right (its last cell comes first).
pub open spec fn rows_rotr(rows: Seq<Seq<String>>) -> Seq<Seq<String>> {
    rows.map_values(|r: Seq<String>| rotr(r))
}

/// No row of the table is empty.
pub open spec fn rows_nonempty(rows: Seq<Seq<String>>) -> bool {
    forall|i: int| 0 <= i < rows.len() ==> #[trigger] rows[i].len() > 0
}

impl View for Results {
    type V = ResultsView;

    closed spec fn view(&self) -> ResultsView {
        ResultsView { columns: self.columns@, values: rows_view(self.values@), focused: self.focused }
    }
}

/// Moves every row of `values` one cell to the left (`left`) or to the right.
pub fn rotate_each_row(values: &mut Vec<Vec<String>>, left: bool)
    ensures
        rows_view(final(values)@) == (if left {
            rows_rotl(rows_view(old(values)@))
        } else {
            rows_rotr(rows_view(old(values)@))
        }),
{
    let mut rest: Vec<Vec<String>> = Vec::new();
    std::mem::swap(&mut rest, values);
    let ghost orig = rest@;
    let mut out: Vec<Vec<String>> = Vec::new();
    while rest.len() > 0
        invariant
            out@.len() + rest@.len() == orig.len(),
            forall|k: int|
                0 <= k < out@.len() ==> #[trigger] out@[k]@ == (if left {
                    rotl(orig[k]@)
                } else {
                    rotr(orig[k]@)
                }),
            forall|k: int| 0 <= k < rest@.len() ==> #[trigger] rest@[k] == orig[out@.len() + k],
        decreases rest@.len(),
    {
        let ghost before = rest@;
        let mut row = rest.remove(0);
        assert(row == orig[out@.len() as int]);
        if left {
            rotate_left_one(&mut row);
        } else {
            rotate_right_one(&mut row);
        }
        out.push(row);
        assert forall|k: int| 0 <= k < rest@.len() implies #[trigger] rest@[k] == orig[out@.len() + k] by {
            assert(rest@[k] == before[k + 1]);
        }
    }
    *values = out;
    assert(rows_view(final(values)@) =~= (if left {
        rows_rotl(rows_view(old(values)@))
    } else {
        rows_rotr(rows_view(old(values)@))
    }));
}

impl Results {
    /// An empty result set, without the focus.
    pub fn new() -> (r: Results)
        ensures
            r@.columns == Seq::<String>::empty(),
            r@.values == Seq::<Seq<String>>::empty(),
            !r@.focused,
    {
        let r = Results { columns: Vec::new(), values: Vec::new(), focused: false };
        assert(r@.values =~= Seq::<Seq<String>>::empty());
        r
    }

    /// Replaces the column names and the rows.
    pub fn set_results(&mut self, columns: Vec<String>, values: Vec<Vec<String>>)
        ensures
            final(self)@.columns == columns@,
            final(self)@.values == rows_view(values@),
            final(self)@.focused == old(self)@.focused,
    {
        self.columns = columns;
        self.values = values;
    }

    /// The column names.
    pub fn columns(&self) -> (c: &Vec<String>)
        ensures
            c@ == self@.columns,
    {
        &self.columns
    }

    /// The rows.
    pub fn values(&self) -> (v: &Vec<Vec<String>>)
        ensures
            rows_view(v@) == self@.values,
    {
        &self.values
    }

    /// Whether the results pane has the focus.
    pub fn is_focused(&self) -> (b: bool)
        ensures
            b == self@.focused,
    {
        self.focused
    }

    /// Scrolls the table one column to the right: every row and the header
    /// move one cell to the left.
    pub fn scroll_right(&mut self)
        requires
            old(self)@.columns.len() > 0,
            rows_nonempty(old(self)@.values),
        ensures
            final(self)@.columns == rotl(old(self)@.columns),
            final(self)@.values == rows_rotl(old(self)@.values),
            final(self)@.focused == old(self)@.focused,
    {
        rotate_each_row(&mut self.values, true);
        rotate_left_one(&mut self.columns);
    }

    /// Scrolls the table one column to the left: every row and the header
    /// move one cell to the right.
    pub fn scroll_left(&mut self)
        requires
            old(self)@.columns.len() > 0,
            rows_nonempty(old(self)@.values),
        ensures
            final(self)@.columns == rotr(old(self)@.columns),
            final(self)@.values == rows_rotr(old(self)@.values),
            final(self)@.focused == old(self)@.focused,
    {
        rotate_each_row(&mut self.values, false);
        rotate_right_one(&mut self.columns);
    }

    /// Gives the results pane the focus.
    pub fn take_focus(&mut self)
        ensures
            final(self)@.focused,
            final(self)@.columns == old(self)@.columns,
            final(self)@.values == old(self)@.values,
    {
        self.focused = true;
    }

    /// Takes the focus away from the results pane.
    pub fn lose_focus(&mut self)
        ensures
            !final(self)@.focused,
            final(self)@.columns == old(self)@.columns,
            final(self)@.values == old(self)@.values,
    {
        self.focused = false;
    }

    /// Scrolls the table: up and down move the rows round, left and right
    /// move the columns round. With no rows nothing moves.
    pub fn move_cursor(&mut self, direction: MoveDirection)
        requires
            old(self)@.values.len() > 0 && (direction == MoveDirection::Left || direction
                == MoveDirection::Right) ==> old(self)@.columns.len() > 0 && rows_nonempty(
                old(self)@.values,
            ),
        ensures
            final(self)@ == results_moved(old(self)@, direction),
    {
        if self.values.len() < 1 {
            return ;
        }
        match direction {
            MoveDirection::Up => {
                rotate_right_one(&mut self.values);
                assert(rows_view(self.values@) =~= rotr(old(self)@.values));
            },
            MoveDirection::Down => {
                rotate_left_one(&mut self.values);
                assert(rows_view(self.values@) =~= rotl(old(self)@.values));
            },
            MoveDirection::Left => self.scroll_left(),
            MoveDirection::Right => self.scroll_right(),
        }
    }
}

/// The results after a move in `direction`.
pub open spec fn results_moved(r: ResultsView, direction: MoveDirection) -> ResultsView {
    if r.values.len() == 0 {
        r
    } else {
        match direction {
            MoveDirection::Up => ResultsView { values: rotr(r.values), ..r },
            MoveDirection::Down => ResultsView { values: rotl(r.values), ..r },
            MoveDirection::Left => ResultsView {
                columns: rotr(r.columns),
                values: rows_rotr(r.values),
                ..r
            },
            MoveDirection::Right => ResultsView {
                columns: rotl(r.columns),
                values: rows_rotl(r.values),
                ..r
            },
        }
    }
}

/// Each row moved right and then left, or left and then right, is as it was.
pub proof fn lemma_rows_rotate_undo(rows: Seq<Seq<String>>)
    ensures
        rows_rotl(rows_rotr(rows)) == rows,
        rows_rotr(rows_rotl(rows)) == rows,
        rows_nonempty(rows) ==> rows_nonempty(rows_rotl(rows)) && rows_nonempty(rows_rotr(rows)),
{
    assert forall|i: int| 0 <= i < rows.len() implies #[trigger] rows_rotl(rows_rotr(rows))[i] == rows[i]
        && rows_rotr(rows_rotl(rows))[i] == rows[i] && rotl(rows[i]).len() == rows[i].len() && rotr(
        rows[i],
    ).len() == rows[i].len() by {
        lemma_rotr_rotl(rows[i]);
    }
    assert(rows_rotl(rows_rotr(rows)) =~= rows);
    assert(rows_rotr(rows_rotl(rows)) =~= rows);
}

/// Scrolling the results one way and then back gives them as they were:
/// down undoes up, up undoes down, right undoes left and left undoes right.
/// A move keeps what further sideways moves need: a header and rows that
/// are not empty.
pub proof fn lemma_moves_undo(r: ResultsView)
    ensures
        results_moved(results_moved(r, MoveDirection::Up), MoveDirection::Down) == r,
        results_moved(results_moved(r, MoveDirection::Down), MoveDirection::Up) == r,
        results_moved(results_moved(r, MoveDirection::Left), MoveDirection::Right) == r,
        results_moved(results_moved(r, MoveDirection::Right), MoveDirection::Left) == r,
        forall|d: MoveDirection|
            r.columns.len() > 0 && rows_nonempty(r.values) ==> #[trigger] results_moved(r, d).columns.len()
                > 0 && rows_nonempty(results_moved(r, d).values),
        forall|d: MoveDirection| #[trigger] results_moved(r, d).values.len() == r.values.len(),
{
    lemma_rotr_rotl(r.values);
    lemma_rotr_rotl(r.columns);
    lemma_rows_rotate_undo(r.values);
    assert forall|d: MoveDirection|
        r.columns.len() > 0 && rows_nonempty(r.values) implies #[trigger] results_moved(r, d).columns.len()
            > 0 && rows_nonempty(results_moved(r, d).values) by {
        if r.values.len() > 0 {
            match d {
                MoveDirection::Up => {
                    assert forall|i: int| 0 <= i < r.values.len() implies #[trigger] rotr(r.values)[i].len() > 0 by {
                        if i == 0 {
                            assert(rotr(r.values)[0] == r.values.last());
                        } else {
                            assert(rotr(r.values)[i] == r.values[i - 1]);
                        }
                    }
                },
                MoveDirection::Down => {
                    assert forall|i: int| 0 <= i < r.values.len() implies #[trigger] rotl(r.values)[i].len() > 0 by {
                        if i == r.values.len() - 1 {
                            assert(rotl(r.values)[i] == r.values[0]);
                        } else {
                            assert(rotl(r.values)[i] == r.values[i + 1]);
                        }
                    }
                },
                _ => {},
            }
        }
    }
}

/// Where the cell shown at position `j` of `n` was before a move in
/// `direction`: scrolling right shows what stood one place further right
/// (the first comes round to the end), scrolling left what stood one place
/// further left (the last comes round to the front); up and down leave the
/// positions in a row as they are.
pub open spec fn source_column(direction: MoveDirection, j: int, n: int) -> int {
    match direction {
        MoveDirection::Right => if j + 1 < n { j + 1 } else { 0 },
        MoveDirection::Left => if j > 0 { j - 1 } else { n - 1 },
        _ => j,
    }
}

/// Where the row shown at place `i` of `m` was before a move in
/// `direction`: scrolling down shows the row that stood one place lower
/// (the first comes round to the end), scrolling up the row one place
/// higher (the last comes round to the top); sideways moves leave the rows
/// in their places.
pub open spec fn source_row(direction: MoveDirection, i: int, m: int) -> int {
    match direction {
        MoveDirection::Down => if i + 1 < m { i + 1 } else { 0 },
        MoveDirection::Up => if i > 0 { i - 1 } else { m - 1 },
        _ => i,
    }
}

/// A scroll of a table whose rows are as long as its header keeps every
/// header over its own cells: after a move, the header at position `j`
/// and the cell at position `j` of every row come from the same position
/// before it (`source_column`), and every row comes from the row at
/// `source_row`. The table keeps its shape.
pub proof fn lemma_scroll_keeps_header_over_cells(r: ResultsView, direction: MoveDirection)
    requires
        r.values.len() > 0,
        r.columns.len() > 0,
        forall|i: int| 0 <= i < r.values.len() ==> #[trigger] r.values[i].len() == r.columns.len(),
    ensures
        results_moved(r, direction).columns.len() == r.columns.len(),
        results_moved(r, direction).values.len() == r.values.len(),
        forall|j: int|
            0 <= j < r.columns.len() ==> #[trigger] results_moved(r, direction).columns[j]
                == r.columns[source_column(direction, j, r.columns.len() as int)],
        forall|i: int, j: int|
            0 <= i < r.values.len() && 0 <= j < r.columns.len() ==> {
                &&& results_moved(r, direction).values[i].len() == r.columns.len()
                &&& #[trigger] results_moved(r, direction).values[i][j] == r.values[source_row(
                    direction,
                    i,
                    r.values.len() as int,
                )][source_column(direction, j, r.columns.len() as int)]
            },
{
    let n = r.columns.len() as int;
    let m = r.values.len() as int;
    let s = results_moved(r, direction);
    lemma_rotr_rotl(r.columns);
    lemma_rotr_rotl(r.values);
    assert forall|j: int| 0 <= j < n implies #[trigger] s.columns[j] == r.columns[source_column(
        direction,
        j,
        n,
    )] by {}
    assert forall|i: int, j: int| 0 <= i < m && 0 <= j < n implies {
        &&& s.values[i].len() == n
        &&& #[trigger] s.values[i][j] == r.values[source_row(direction, i, m)][source_column(direction, j, n)]
    } by {
        let row = r.values[source_row(direction, i, m)];
        assert(row.len() == n);
        lemma_rotr_rotl(r.values[i]);
        match direction {
            MoveDirection::Right => {
                assert(s.values[i] == rotl(r.values[i]));
            },
            MoveDirection::Left => {
                assert(s.values[i] == rotr(r.values[i]));
            },
            _ => {},
        }
    }
}

} // verus!
