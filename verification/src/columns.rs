//! Rows as named cells, and their projection onto a single column order.
//!
//! A driver hands every row back as a list of cells, each a column name with
//! the value already coerced to text. The result set's column order is taken
//! from the first row's cells alone and applied uniformly: each emitted row
//! holds, for each of the first row's names in order, the value of that row's
//! first cell carrying the name. For a single SQL statement every row shares
//! the column set, so the projection is the identity on values; the rule is
//! what fixes the behaviour if rows ever disagreed.

use vstd::prelude::*;

verus! {

/// One column of one row: the column's name and the value's text.
pub struct Cell {
    pub name: String,
    pub value: String,
}

/// The mathematical form of a cell: both strings as character sequences.
pub struct CellView {
    pub name: Seq<char>,
    pub value: Seq<char>,
}

impl View for Cell {
    type V = CellView;

    open spec fn view(&self) -> CellView {
        CellView { name: self.name@, value: self.value@ }
    }
}

impl DeepView for Cell {
    type V = CellView;

    open spec fn deep_view(&self) -> CellView {
        self.view()
    }
}

/// The value of the first cell of `cells` whose name is `name`, or empty
/// text when no cell carries the name.
pub open spec fn lookup(cells: Seq<CellView>, name: Seq<char>) -> Seq<char>
    decreases cells.len(),
{
    if cells.len() == 0 {
        Seq::<char>::empty()
    } else if cells.first().name == name {
        cells.first().value
    } else {
        lookup(cells.drop_first(), name)
    }
}

/// The names of a row's cells, in the row's own order.
pub open spec fn column_names(row: Seq<CellView>) -> Seq<Seq<char>> {
    row.map_values(|c: CellView| c.name)
}

/// One row reduced to the given column order: for each name, the row's value
/// under that name.
pub open spec fn projected_row(names: Seq<Seq<char>>, row: Seq<CellView>) -> Seq<Seq<char>> {
    names.map_values(|n: Seq<char>| lookup(row, n))
}

/// A whole result set reduced to the first row's column order.
pub open spec fn projected(rows: Seq<Seq<CellView>>) -> Seq<Seq<Seq<char>>> {
    if rows.len() == 0 {
        Seq::<Seq<Seq<char>>>::empty()
    } else {
        rows.map_values(|r: Seq<CellView>| projected_row(column_names(rows.first()), r))
    }
}

/// Every emitted row follows the first row's column order: the j-th value of
/// the i-th emitted row is the value the i-th row holds under the first
/// row's j-th column name, whether or not the rows share a column set.
pub proof fn lemma_column_order_stability(rows: Seq<Seq<CellView>>, i: int, j: int)
    requires
        0 < rows.len(),
        0 <= i < rows.len(),
        0 <= j < rows.first().len(),
    ensures
        projected(rows).len() == rows.len(),
        projected(rows)[i].len() == rows.first().len(),
        projected(rows)[i][j] == lookup(rows[i], rows.first()[j].name),
{
    assert(projected(rows)[i] == projected_row(column_names(rows.first()), rows[i]));
    assert(column_names(rows.first())[j] == rows.first()[j].name);
}

/// Looking a name up finds the first cell that carries it: a cell whose
/// name no earlier cell shares is the one the lookup answers from.
proof fn lemma_lookup_finds_first(cells: Seq<CellView>, j: int)
    requires
        0 <= j < cells.len(),
        forall|k: int| 0 <= k < j ==> cells[k].name != cells[j].name,
    ensures
        lookup(cells, cells[j].name) == cells[j].value,
    decreases j,
{
    if j == 0 {
        assert(cells.first() == cells[0]);
    } else {
        assert(cells.first() == cells[0]);
        assert(cells[0].name != cells[j].name);
        assert(cells.drop_first()[j - 1] == cells[j]);
        assert forall|k: int| 0 <= k < j - 1 implies #[trigger] cells.drop_first()[k].name
            != cells.drop_first()[j - 1].name by {
            assert(cells.drop_first()[k] == cells[k + 1]);
        }
        lemma_lookup_finds_first(cells.drop_first(), j - 1);
    }
}

/// On a result set whose rows all share the first row's column names in the
/// first row's order — the only shape a single SQL statement can produce,
/// provided the names are distinct — the projection is the identity on
/// values: the j-th emitted value of the i-th row is the i-th row's j-th
/// cell, verbatim.
pub proof fn lemma_projection_is_identity_on_shared_columns(
    rows: Seq<Seq<CellView>>,
    i: int,
    j: int,
)
    requires
        0 < rows.len(),
        0 <= i < rows.len(),
        0 <= j < rows.first().len(),
        column_names(rows[i]) == column_names(rows.first()),
        column_names(rows.first()).no_duplicates(),
    ensures
        rows[i].len() == rows.first().len(),
        projected(rows)[i].len() == rows.first().len(),
        projected(rows)[i][j] == rows[i][j].value,
{
    lemma_column_order_stability(rows, i, j);
    assert(rows[i].len() == column_names(rows[i]).len());
    assert(rows[i][j].name == column_names(rows[i])[j]);
    assert(rows[i][j].name == rows.first()[j].name);
    assert forall|k: int| 0 <= k < j implies rows[i][k].name != rows[i][j].name by {
        assert(rows[i][k].name == column_names(rows.first())[k]);
        assert(rows[i][j].name == column_names(rows.first())[j]);
    }
    lemma_lookup_finds_first(rows[i], j);
}

/// Find `name` among `cells` and hand its value back, the first match
/// winning; empty text stands for a name the row does not carry.
pub fn lookup_value(cells: &Vec<Cell>, name: &String) -> (v: String)
    ensures
        v@ == lookup(cells.deep_view(), name@),
{
    let mut i: usize = 0;
    proof {
        assert(cells.deep_view().skip(0) =~= cells.deep_view());
    }
    while i < cells.len()
        invariant
            i <= cells.len(),
            lookup(cells.deep_view(), name@) == lookup(
                cells.deep_view().skip(i as int),
                name@,
            ),
        decreases cells.len() - i,
    {
        let c: &Cell = &cells[i];
        proof {
            assert(cells.deep_view().skip(i as int).first() == cells.deep_view()[i as int]);
        }
        if c.name == *name {
            return c.value.clone();
        }
        proof {
            assert(cells.deep_view().skip(i as int).drop_first() =~= cells.deep_view().skip(
                i + 1,
            ));
        }
        i = i + 1;
    }
    proof {
        assert(cells.deep_view().skip(cells.len() as int).len() == 0);
    }
    String::new()
}

/// The names of a row's cells as strings, in the row's own order.
fn names_of(row: &Vec<Cell>) -> (names: Vec<String>)
    ensures
        names.deep_view() == column_names(row.deep_view()),
{
    let mut names: Vec<String> = Vec::new();
    let mut i: usize = 0;
    while i < row.len()
        invariant
            i <= row.len(),
            names.deep_view() =~= column_names(row.deep_view()).take(i as int),
        decreases row.len() - i,
    {
        let ghost prev_view = names@;
        let ghost prev = names.deep_view();
        let x = row[i].name.clone();
        names.push(x);
        proof {
            assert(names@ == prev_view.push(x));
            assert(names.deep_view().len() == prev.len() + 1);
            assert forall|k: int| 0 <= k < prev.len() implies names.deep_view()[k] == prev[k] by {
                assert(names@[k] == prev_view[k]);
            }
            assert(names.deep_view()[prev.len() as int] == x.deep_view());
            assert(names.deep_view() =~= column_names(row.deep_view()).take(i + 1));
        }
        i = i + 1;
    }
    proof {
        assert(names.deep_view() =~= column_names(row.deep_view()));
    }
    names
}

/// Reduce a result set to the first row's column order: row by row, for each
/// of the first row's names, the value the row holds under that name.
pub fn project(rows: &Vec<Vec<Cell>>) -> (vals: Vec<Vec<String>>)
    ensures
        vals.deep_view() == projected(rows.deep_view()),
{
    let mut vals: Vec<Vec<String>> = Vec::new();
    if rows.len() == 0 {
        proof {
            assert(vals.deep_view() =~= projected(rows.deep_view()));
        }
        return vals;
    }
    let names = names_of(&rows[0]);
    proof {
        assert(rows.deep_view().first() == rows[0].deep_view());
    }
    let mut i: usize = 0;
    while i < rows.len()
        invariant
            i <= rows.len(),
            rows.len() > 0,
            names.deep_view() == column_names(rows.deep_view().first()),
            vals.deep_view() =~= projected(rows.deep_view()).take(i as int),
        decreases rows.len() - i,
    {
        let mut out_row: Vec<String> = Vec::new();
        let mut j: usize = 0;
        while j < names.len()
            invariant
                j <= names.len(),
                names.deep_view() == column_names(rows.deep_view().first()),
                i < rows.len(),
                out_row.deep_view() =~= projected_row(
                    names.deep_view(),
                    rows.deep_view()[i as int],
                ).take(j as int),
            decreases names.len() - j,
        {
            let v = lookup_value(&rows[i], &names[j]);
            let ghost pushed = v;
            let ghost prev_view = out_row@;
            let ghost prev = out_row.deep_view();
            out_row.push(v);
            proof {
                assert(out_row@ == prev_view.push(pushed));
                assert forall|k: int| 0 <= k < prev.len() implies out_row.deep_view()[k]
                    == prev[k] by {
                    assert(out_row@[k] == prev_view[k]);
                }
                assert(out_row.deep_view()[prev.len() as int] == pushed.deep_view());
                assert(names.deep_view()[j as int] == names@[j as int]@);
                assert(rows.deep_view()[i as int] == rows[i as int].deep_view());
                assert(out_row.deep_view() =~= projected_row(
                    names.deep_view(),
                    rows.deep_view()[i as int],
                ).take(j + 1));
            }
            j = j + 1;
        }
        proof {
            assert(out_row.deep_view() =~= projected_row(
                names.deep_view(),
                rows.deep_view()[i as int],
            ));
        }
        let ghost pushed_row = out_row;
        let ghost prev_view = vals@;
        let ghost prev = vals.deep_view();
        vals.push(out_row);
        proof {
            assert(vals@ == prev_view.push(pushed_row));
            assert forall|k: int| 0 <= k < prev.len() implies vals.deep_view()[k] == prev[k] by {
                assert(vals@[k] == prev_view[k]);
            }
            assert(vals.deep_view()[prev.len() as int] == pushed_row.deep_view());
            assert(projected(rows.deep_view())[i as int] == projected_row(
                column_names(rows.deep_view().first()),
                rows.deep_view()[i as int],
            ));
            assert(vals.deep_view() =~= projected(rows.deep_view()).take(i + 1));
        }
        i = i + 1;
    }
    proof {
        assert(vals.deep_view() =~= projected(rows.deep_view()));
    }
    vals
}

} // verus!
