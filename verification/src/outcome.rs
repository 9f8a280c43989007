//! The outcome of one query, and its rendering as the returned text.

use crate::columns::{Cell, CellView, project, projected};
use crate::render::{error_sentinel, render_error, render_values, rendered_rows};
use vstd::prelude::*;

verus! {

/// What running a query handed back: the fetched rows, each a list of named
/// cells, or the text of the failure the driver reported.
pub enum QueryOutcome {
    Rows(Vec<Vec<Cell>>),
    Failure(String),
}

/// Render an outcome as the text a caller receives: fetched rows are
/// projected onto the first row's column order and flattened, one line per
/// row; a failure becomes the marked error line. A fetch failure is the one
/// recoverable failure: it is rendered, never raised.
pub fn render_outcome(outcome: &QueryOutcome) -> (out: String)
    ensures
        match outcome {
            QueryOutcome::Rows(rows) => out@ == rendered_rows(projected(rows.deep_view())),
            QueryOutcome::Failure(detail) => out@ == error_sentinel() + detail@,
        },
{
    match outcome {
        QueryOutcome::Rows(rows) => {
            let vals = project(rows);
            render_values(&vals)
        },
        QueryOutcome::Failure(detail) => render_error(detail.as_str()),
    }
}

/// A query that fetched no rows renders as the empty string: there is no
/// header line and no closing text, only the rows themselves.
pub proof fn lemma_empty_result_renders_empty()
    ensures
        rendered_rows(projected(Seq::<Seq<CellView>>::empty())) == Seq::<char>::empty(),
{
}

} // verus!
