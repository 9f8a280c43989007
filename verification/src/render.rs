//! Rendering of a result set as flat text.
//!
//! A result set of R rows and C columns becomes R lines; each line holds the
//! C values in column order, every value followed by a single space, and ends
//! with a newline. An empty result set renders as the empty string. A failed
//! query renders as a fixed marker followed by the failure's own text.
//! Values are not escaped: a value holding a space or a newline is
//! indistinguishable from a field boundary, which is the documented format.

use vstd::prelude::*;
use vstd::string::StringExecFns;

verus! {

/// The text of one row's fields: each value followed by a single space.
pub open spec fn rendered_fields(vals: Seq<Seq<char>>) -> Seq<char>
    decreases vals.len(),
{
    if vals.len() == 0 {
        Seq::<char>::empty()
    } else {
        vals.first().push(' ') + rendered_fields(vals.drop_first())
    }
}

/// The text of one row: its fields followed by the terminating newline.
pub open spec fn rendered_row(vals: Seq<Seq<char>>) -> Seq<char> {
    rendered_fields(vals).push('\n')
}

/// The text of a whole result set: the rows' lines in the order given.
pub open spec fn rendered_rows(rows: Seq<Seq<Seq<char>>>) -> Seq<char>
    decreases rows.len(),
{
    if rows.len() == 0 {
        Seq::<char>::empty()
    } else {
        rendered_row(rows.first()) + rendered_rows(rows.drop_first())
    }
}

proof fn lemma_rendered_fields_snoc(vals: Seq<Seq<char>>, v: Seq<char>)
    ensures
        rendered_fields(vals.push(v)) == rendered_fields(vals) + v.push(' '),
    decreases vals.len(),
{
    let s = vals.push(v);
    if vals.len() == 0 {
        assert(s.first() == v);
        assert(s.drop_first() =~= Seq::<Seq<char>>::empty());
        assert(rendered_fields(s) == s.first().push(' ') + rendered_fields(s.drop_first()));
        assert(rendered_fields(s) =~= rendered_fields(vals) + v.push(' '));
    } else {
        assert(s.first() == vals.first());
        assert(s.drop_first() =~= vals.drop_first().push(v));
        lemma_rendered_fields_snoc(vals.drop_first(), v);
        assert(rendered_fields(s) == s.first().push(' ') + rendered_fields(s.drop_first()));
        assert(rendered_fields(s) =~= rendered_fields(vals) + v.push(' '));
    }
}

proof fn lemma_rendered_rows_snoc(rows: Seq<Seq<Seq<char>>>, r: Seq<Seq<char>>)
    ensures
        rendered_rows(rows.push(r)) == rendered_rows(rows) + rendered_row(r),
    decreases rows.len(),
{
    let s = rows.push(r);
    if rows.len() == 0 {
        assert(s.first() == r);
        assert(s.drop_first() =~= Seq::<Seq<Seq<char>>>::empty());
        assert(rendered_rows(s) == rendered_row(s.first()) + rendered_rows(s.drop_first()));
        assert(rendered_rows(s) =~= rendered_rows(rows) + rendered_row(r));
    } else {
        assert(s.first() == rows.first());
        assert(s.drop_first() =~= rows.drop_first().push(r));
        lemma_rendered_rows_snoc(rows.drop_first(), r);
        assert(rendered_rows(s) == rendered_row(s.first()) + rendered_rows(s.drop_first()));
        assert(rendered_rows(s) =~= rendered_rows(rows) + rendered_row(r));
    }
}

/// Render one row's values into `out`: each value, a space after it, and a
/// closing newline.
fn push_row(out: &mut String, vals: &Vec<String>)
    ensures
        final(out)@ == old(out)@ + rendered_row(vals.deep_view()),
{
    let ghost prefix: Seq<char> = out@;
    let mut j: usize = 0;
    while j < vals.len()
        invariant
            j <= vals.len(),
            out@ == prefix + rendered_fields(vals.deep_view().take(j as int)),
        decreases vals.len() - j,
    {
        out.append(vals[j].as_str());
        out.append(" ");
        proof {
            reveal_strlit(" ");
            lemma_rendered_fields_snoc(vals.deep_view().take(j as int), vals[j as int]@);
            assert(vals.deep_view().take(j + 1) =~= vals.deep_view().take(j as int).push(
                vals[j as int]@,
            ));
            assert(out@ =~= prefix + rendered_fields(vals.deep_view().take(j + 1)));
        }
        j = j + 1;
    }
    out.append("\n");
    proof {
        assert(vals.deep_view().take(vals.len() as int) =~= vals.deep_view());
        reveal_strlit(" ");
        reveal_strlit("\n");
        assert(out@ =~= prefix + rendered_row(vals.deep_view()));
    }
}

/// Render a whole result set, given every value already as text, row by row
/// in the order handed in.
pub fn render_values(rows: &Vec<Vec<String>>) -> (out: String)
    ensures
        out@ == rendered_rows(rows.deep_view()),
{
    let mut out = String::new();
    let mut i: usize = 0;
    while i < rows.len()
        invariant
            i <= rows.len(),
            out@ == rendered_rows(rows.deep_view().take(i as int)),
        decreases rows.len() - i,
    {
        push_row(&mut out, &rows[i]);
        proof {
            lemma_rendered_rows_snoc(
                rows.deep_view().take(i as int),
                rows[i as int].deep_view(),
            );
            assert(rows.deep_view().take(i + 1) =~= rows.deep_view().take(i as int).push(
                rows[i as int].deep_view(),
            ));
        }
        i = i + 1;
    }
    proof {
        assert(rows.deep_view().take(rows.len() as int) =~= rows.deep_view());
    }
    out
}

/// The fixed text that stands before a failure's own description.
pub open spec fn error_sentinel() -> Seq<char> {
    "Query returned an error: "@
}

/// The marker that every failure rendering begins with.
pub open spec fn error_marker() -> Seq<char> {
    "Query returned an error"@
}

/// Render a failed query: the fixed sentinel followed by the failure's text.
pub fn render_error(detail: &str) -> (out: String)
    ensures
        out@ == error_sentinel() + detail@,
{
    let mut out = String::from_str("Query returned an error: ");
    out.append(detail);
    out
}

/// A failure rendering begins with the fixed marker, whatever detail text
/// follows the sentinel.
pub proof fn lemma_error_text_starts_with_marker(detail: Seq<char>)
    ensures
        error_marker().len() <= (error_sentinel() + detail).len(),
        (error_sentinel() + detail).take(error_marker().len() as int) == error_marker(),
{
    reveal_strlit("Query returned an error: ");
    reveal_strlit("Query returned an error");
    assert((error_sentinel() + detail).take(error_marker().len() as int) =~= error_marker());
}

} // verus!
