mod chan;
mod db;
mod job;
mod query;
mod scheduler;
mod statements;
mod trace;
mod worker;

pub use chan::JobSender;
pub use job::Job;
pub use query::ErrorCode;
pub use query::QueryError;
pub use query::QueryResponse;
pub use query::QueryResult;
pub use scheduler::ClientId;
pub use scheduler::UpdateStateMessage;
pub use query::cell_line;
pub use query::format_cell;
pub use query::result_lines;
pub use query::row_lines;
pub use query::rows_wf;
pub use statements::State;
pub use statements::Statements;
pub use trace::count_of;
pub use trace::is_terminal;
pub use trace::lemma_count_append;
pub use trace::lemma_partial_session_counts;
pub use trace::lemma_session_exactly_one_terminal;
pub use trace::partial_session_shape;
pub use trace::session_shape;
pub use trace::terminal_count;
pub use trace::Lifecycle;
pub use worker::resolve_worker_count;
pub use worker::transaction_closes;
pub use worker::TxnOutcome;
pub use worker::Worker;
pub use worker::TXN_TIMEOUT_SECS;
