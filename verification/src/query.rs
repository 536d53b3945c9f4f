use vstd::prelude::*;

verus! {

/// Classification of a failure reported to the caller of a job.
#[derive(Clone, Copy, Debug, PartialEq, Eq, Structural)]
pub enum ErrorCode {
    SQLError,
}

/// A typed execution error: an error code plus the storage engine's message.
#[derive(Debug)]
pub struct QueryError {
    pub code: ErrorCode,
    pub msg: String,
}

impl QueryError {
    pub fn new(code: ErrorCode, msg: String) -> (r: QueryError)
        ensures
            r.code == code,
            r.msg == msg,
    {
        QueryError { code, msg }
    }

    /// The engine's message, for callers that render the error.
    pub fn message(&self) -> (r: &String)
        ensures
            r == &self.msg,
    {
        &self.msg
    }
}

/// A successful response: the flat, ordered sequence of result lines.
#[derive(Debug)]
pub enum QueryResponse {
    ResultSet(Vec<String>),
}

/// What a job's responder carries: exactly one of these per job.
pub type QueryResult = Result<QueryResponse, QueryError>;

/// The flat rendering of one result cell: the column name, ` = `, the value.
pub open spec fn cell_line(name: Seq<char>, value: Seq<char>) -> Seq<char> {
    name + " = "@ + value
}

/// The lines one row contributes: one cell line per column, in column order.
/// Row boundaries are deliberately not represented: the result shape is a
/// single flat sequence of lines.
pub open spec fn row_lines(names: Seq<Seq<char>>, row: Seq<Seq<char>>) -> Seq<Seq<char>> {
    Seq::new(row.len(), |i: int| cell_line(names[i], row[i]))
}

/// The whole flat result: rows in order, each contributing its cell lines.
pub open spec fn result_lines(names: Seq<Seq<char>>, rows: Seq<Seq<Seq<char>>>) -> Seq<Seq<char>>
    decreases rows.len(),
{
    if rows.len() == 0 {
        Seq::<Seq<char>>::empty()
    } else {
        result_lines(names, rows.drop_last()) + row_lines(names, rows.last())
    }
}

/// Every row carries exactly one cell per column.
pub open spec fn rows_wf(names: Seq<Seq<char>>, rows: Seq<Seq<Seq<char>>>) -> bool {
    forall|i: int| 0 <= i < rows.len() ==> (#[trigger] rows[i]).len() == names.len()
}

/// Render one result cell as its flat line.
pub fn format_cell(name: &String, value: &String) -> (r: String)
    ensures
        r@ == cell_line(name@, value@),
{
    let mut s: String = name.clone();
    s.append(" = ");
    s.append(value.as_str());
    s
}

} // verus!
