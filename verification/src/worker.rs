use vstd::prelude::*;
use crate::chan::duration_secs;
use crate::chan::instant_add;
use crate::chan::instant_now;
use crate::chan::job_channel;
use crate::chan::recv_job;
use crate::chan::recv_job_deadline;
use crate::chan::respond;
use crate::chan::send_update;
use crate::db::column_names;
use crate::db::execute_no_params;
use crate::db::prepare;
use crate::db::query_rows;
use crate::db::row_get_string;
use crate::db::rows_next;
use crate::job::Job;
use crate::scheduler::ClientId;
use crate::scheduler::UpdateStateMessage;
use crate::statements::State;
use crate::trace::count_of;
use crate::trace::lemma_count_append;
use crate::trace::lemma_partial_session_counts;
use crate::trace::lemma_session_exactly_one_terminal;
use crate::trace::partial_session_shape;
use crate::trace::session_shape;
use crate::trace::terminal_count;
use crate::trace::Lifecycle;
use crate::query::cell_line;
use crate::query::format_cell;
use crate::query::result_lines;
use crate::query::row_lines;
use crate::query::rows_wf;
use crate::query::ErrorCode;
use crate::query::QueryError;
use crate::query::QueryResponse;
use crate::query::QueryResult;
use crate::statements::Statements;

verus! {

/// The transaction timeout, in seconds: one absolute bound computed at
/// TxnBegin, never renewed per statement, and not runtime-configurable.
pub const TXN_TIMEOUT_SECS: u64 = 5;

/// How an interactive transaction ended on its worker.
#[derive(Clone, Copy, Debug, PartialEq, Eq, Structural)]
pub enum TxnOutcome {
    /// A successful execution moved the phase to `TxnClosed`.
    Ended,
    /// No follow-up job arrived before the deadline; the worker rolled the
    /// transaction back.
    TimedOut,
    /// A scheduler-channel send failed. The scheduler must stay reachable
    /// for the pool's lifetime, so this is an invariant violation and the
    /// worker stops.
    SchedulerGone,
}

/// The number of pool slots to build: the requested count, or the host's
/// available parallelism when the caller asks for automatic sizing with 0.
pub fn resolve_worker_count(requested: usize, detected_parallelism: usize) -> (n: usize)
    ensures
        requested != 0 ==> n == requested,
        requested == 0 ==> n == detected_parallelism,
{
    if requested == 0 {
        detected_parallelism
    } else {
        requested
    }
}

/// The decision at the end of each transaction-loop iteration: the session
/// closes successfully exactly when the batch just run moves the phase from
/// `TxnOpened` to `TxnClosed` and its execution succeeded. A failed
/// execution never closes a transaction, whatever the phase function says.
pub fn transaction_closes(stmts: &Statements, exec_ok: bool) -> (close: bool)
    ensures
        close == stmts.closes_txn(exec_ok),
{
    stmts.state(State::TxnOpened) == State::TxnClosed && exec_ok
}

/// One pool slot: an exclusive storage connection plus the consuming side
/// of the shared job queue. Nothing is locked because nothing is shared —
/// the connection belongs to this worker for its whole lifetime.
pub struct Worker {
    pub global_fifo: crossbeam::channel::Receiver<Job>,
    pub db_conn: rusqlite::Connection,
    pub id: usize,
}

impl Worker {
    /// Execute one statement batch to completion on the private connection:
    /// prepare the text with no bound parameters, run it, and walk every
    /// result row, serializing each column as one `name = value` line of a
    /// flat, ordered result. Any prepare, step or column-read failure is
    /// returned as a typed execution error.
    pub fn perform_oneshot(&self, stmts: &Statements) -> (r: QueryResult)
        ensures
            r matches Ok(resp) ==> ({
                &&& resp matches QueryResponse::ResultSet(lines)
                &&& exists|names: Seq<Seq<char>>, rows: Seq<Seq<Seq<char>>>|
                    #[trigger] rows_wf(names, rows) && lines.deep_view() == result_lines(
                        names,
                        rows,
                    )
            }),
            r matches Err(e) ==> e.code == ErrorCode::SQLError,
    {
        let mut result: Vec<String> = Vec::new();
        let mut prepared = match prepare(&self.db_conn, self.stmts_text(stmts)) {
            Ok(p) => p,
            Err(e) => {
                return Err(e);
            },
        };
        let names = column_names(&prepared);
        let ghost names_dv: Seq<Seq<char>> = names.deep_view();
        let mut rows = match query_rows(&mut prepared) {
            Ok(rs) => rs,
            Err(e) => {
                return Err(e);
            },
        };
        let ghost mut seen: Seq<Seq<Seq<char>>> = Seq::empty();
        // Termination fuel: a row count no real result set reaches. Should a
        // result set ever exhaust it, the walk stops with an execution error
        // rather than an incomplete success.
        let mut fuel: u64 = u64::MAX;
        while fuel > 0
            invariant
                names_dv == names.deep_view(),
                rows_wf(names_dv, seen),
                result.deep_view() == result_lines(names_dv, seen),
            decreases fuel,
        {
            fuel = fuel - 1;
            let row = match rows_next(&mut rows) {
                Ok(Some(row)) => row,
                Ok(None) => {
                    break ;
                },
                Err(e) => {
                    return Err(e);
                },
            };
            let ghost mut cells: Seq<Seq<char>> = Seq::empty();
            let mut i: usize = 0;
            while i < names.len()
                invariant
                    names_dv == names.deep_view(),
                    rows_wf(names_dv, seen),
                    i <= names.len(),
                    cells.len() == i,
                    result.deep_view() == result_lines(names_dv, seen) + row_lines(
                        names_dv,
                        cells,
                    ),
                decreases names.len() - i,
            {
                let value = match row_get_string(row, i) {
                    Ok(v) => v,
                    Err(e) => {
                        return Err(e);
                    },
                };
                let line = format_cell(&names[i], &value);
                let ghost pre: Seq<Seq<char>> = result.deep_view();
                result.push(line);
                proof {
                    let cells2 = cells.push(value@);
                    assert(result.deep_view() =~= pre.push(line@));
                    assert(row_lines(names_dv, cells2) =~= row_lines(names_dv, cells).push(
                        cell_line(names_dv[i as int], value@),
                    ));
                    assert((result_lines(names_dv, seen) + row_lines(names_dv, cells)).push(line@)
                        =~= result_lines(names_dv, seen) + row_lines(names_dv, cells2));
                    cells = cells2;
                }
                i = i + 1;
            }
            proof {
                let seen2 = seen.push(cells);
                assert(seen2.drop_last() =~= seen);
                assert(result.deep_view() =~= result_lines(names_dv, seen2));
                seen = seen2;
            }
        }
        if fuel == 0 {
            return Err(QueryError::new(
                ErrorCode::SQLError,
                String::from_str("result set exceeds the row budget"),
            ));
        }
        let ghost names_w: Seq<Seq<char>> = names_dv;
        let ghost rows_w: Seq<Seq<Seq<char>>> = seen;
        assert(rows_wf(names_w, rows_w) && result.deep_view() == result_lines(names_w, rows_w));
        Ok(QueryResponse::ResultSet(result))
    }

    /// The batch's SQL text, as handed to the storage engine.
    fn stmts_text<'a>(&self, stmts: &'a Statements) -> (r: &'a str)
        ensures
            r@ == stmts.stmts@,
    {
        stmts.stmts.as_str()
    }

    /// Run one interactive transaction pinned to this worker.
    ///
    /// A private channel is opened and its sending half travels to the
    /// scheduler inside `TxnBegin`, so every follow-up job of this client
    /// reaches this worker directly; one absolute deadline is computed at
    /// that moment and never extended. Each iteration executes the current
    /// batch, delivers the result on that job's responder (best-effort),
    /// and either ends the session — `TxnEnded` after a successful closing
    /// batch — or announces `Ready` and waits for the next job until the
    /// deadline, rolling back and announcing `TxnTimeout` when it passes.
    ///
    /// The ghost trace records every notification handed to the scheduler
    /// channel, in order: a completed session is exactly `TxnBegin`, then
    /// `Ready` per non-closing outcome, then one terminal. `Ready` is sent
    /// before the timed wait begins, so a scheduler-routed dispatch and a
    /// concurrently firing timeout can both be in flight; that race is
    /// inherited and bounded by the timeout window, not resolved here.
    pub fn handle_transaction(&self, job: Job) -> (r: (TxnOutcome, Ghost<Seq<Lifecycle>>))
        ensures
            r.1@.len() >= 1 && r.1@[0] == Lifecycle::TxnBegin,
            r.0 == TxnOutcome::Ended ==> session_shape(r.1@) && r.1@.last() == Lifecycle::TxnEnded,
            r.0 == TxnOutcome::TimedOut ==> session_shape(r.1@) && r.1@.last()
                == Lifecycle::TxnTimeout,
            r.0 == TxnOutcome::SchedulerGone ==> partial_session_shape(r.1@) || session_shape(
                r.1@,
            ),
    {
        let Job { client_id, statements, responder, scheduler_sender } = job;
        let (private_tx, private_rx) = job_channel();
        let ghost mut trace: Seq<Lifecycle> = Seq::empty();
        let begin_ok = send_update(
            &scheduler_sender,
            UpdateStateMessage::TxnBegin(client_id, private_tx),
        );
        proof {
            trace = trace.push(Lifecycle::TxnBegin);
            assert(partial_session_shape(trace));
        }
        if !begin_ok {
            return (TxnOutcome::SchedulerGone, Ghost(trace));
        }
        let now = instant_now();
        let timeout = duration_secs(TXN_TIMEOUT_SECS);
        let deadline = match instant_add(&now, timeout) {
            Some(t) => t,
            None => now,
        };
        let mut stmts = statements;
        let mut current_responder = responder;
        // Termination fuel: more iterations than any client can reach
        // within the fixed deadline; exhausting it falls to the timeout
        // path.
        let mut fuel: u64 = u64::MAX;
        while fuel > 0
            invariant
                partial_session_shape(trace),
            decreases fuel,
        {
            fuel = fuel - 1;
            let message = self.perform_oneshot(&stmts);
            let is_err = message.is_err();
            let _ = respond(current_responder, message);
            if transaction_closes(&stmts, !is_err) {
                let end_ok = send_update(&scheduler_sender, UpdateStateMessage::TxnEnded(client_id));
                proof {
                    trace = trace.push(Lifecycle::TxnEnded);
                    assert(session_shape(trace));
                }
                if !end_ok {
                    return (TxnOutcome::SchedulerGone, Ghost(trace));
                }
                return (TxnOutcome::Ended, Ghost(trace));
            }
            let ready_ok = send_update(&scheduler_sender, UpdateStateMessage::Ready(client_id));
            proof {
                trace = trace.push(Lifecycle::Ready);
                assert(partial_session_shape(trace));
            }
            if !ready_ok {
                return (TxnOutcome::SchedulerGone, Ghost(trace));
            }
            match recv_job_deadline(&private_rx, &deadline) {
                Some(next) => {
                    let Job { statements: next_stmts, responder: next_responder, .. } = next;
                    stmts = next_stmts;
                    current_responder = next_responder;
                },
                None => {
                    return self.timeout_rollback(client_id, &scheduler_sender, Ghost(trace));
                },
            }
        }
        self.timeout_rollback(client_id, &scheduler_sender, Ghost(trace))
    }

    /// The timeout path: a best-effort rollback on the private connection —
    /// its outcome is discarded — then the `TxnTimeout` terminal.
    fn timeout_rollback(
        &self,
        client_id: ClientId,
        scheduler_sender: &crossbeam::channel::Sender<UpdateStateMessage>,
        Ghost(trace): Ghost<Seq<Lifecycle>>,
    ) -> (r: (TxnOutcome, Ghost<Seq<Lifecycle>>))
        requires
            partial_session_shape(trace),
        ensures
            r.0 == TxnOutcome::TimedOut ==> session_shape(r.1@) && r.1@.last()
                == Lifecycle::TxnTimeout,
            r.0 == TxnOutcome::SchedulerGone ==> partial_session_shape(r.1@) || session_shape(
                r.1@,
            ),
            r.0 != TxnOutcome::Ended,
    {
        let _ = execute_no_params(&self.db_conn, "ROLLBACK TRANSACTION;");
        let timeout_ok = send_update(scheduler_sender, UpdateStateMessage::TxnTimeout(client_id));
        let ghost trace2 = trace.push(Lifecycle::TxnTimeout);
        proof {
            assert(session_shape(trace2));
        }
        if !timeout_ok {
            return (TxnOutcome::SchedulerGone, Ghost(trace2));
        }
        (TxnOutcome::TimedOut, Ghost(trace2))
    }

    /// Serve one non-transactional job: execute the batch, deliver the
    /// result on the job's one-shot responder — the sender is consumed by
    /// that single send, so the job yields exactly one result — and then
    /// announce `Ready` unconditionally, whatever the execution outcome.
    /// `ok` reports whether the scheduler channel still had a listener.
    pub fn serve_oneshot(&self, job: Job) -> (r: (bool, Ghost<Seq<Lifecycle>>))
        ensures
            r.1@ == seq![Lifecycle::Ready],
    {
        let Job { client_id, statements, responder, scheduler_sender } = job;
        let message = self.perform_oneshot(&statements);
        let _ = respond(responder, message);
        let ok = send_update(&scheduler_sender, UpdateStateMessage::Ready(client_id));
        let ghost step: Seq<Lifecycle> = seq![Lifecycle::Ready];
        (ok, Ghost(step))
    }

    /// The worker main loop: block on the shared queue, route each dequeued
    /// job, and exit cleanly when the queue closes — the pool's shutdown
    /// path. A batch whose phase function maps `Start` to `TxnOpened` opens
    /// an interactive transaction; any other batch, malformed ones
    /// included, is served oneshot and the storage engine surfaces its own
    /// errors.
    ///
    /// `clean` is false when the worker stopped early because the scheduler
    /// channel was gone. The ghost trace aggregates every notification the
    /// worker handed to the scheduler channel: each announced transaction
    /// ends in exactly one terminal notification, except possibly the last
    /// one when the scheduler vanished mid-session.
    pub fn run(self) -> (r: (bool, Ghost<Seq<Lifecycle>>))
        ensures
            terminal_count(r.1@) <= count_of(r.1@, Lifecycle::TxnBegin),
            count_of(r.1@, Lifecycle::TxnBegin) <= terminal_count(r.1@) + 1,
            r.0 ==> count_of(r.1@, Lifecycle::TxnBegin) == terminal_count(r.1@),
    {
        let ghost mut trace: Seq<Lifecycle> = Seq::empty();
        // Termination fuel: a job count no queue reaches.
        let mut fuel: u64 = u64::MAX;
        while fuel > 0
            invariant
                count_of(trace, Lifecycle::TxnBegin) == terminal_count(trace),
            decreases fuel,
        {
            fuel = fuel - 1;
            let job = match recv_job(&self.global_fifo) {
                Some(j) => j,
                None => {
                    return (true, Ghost(trace));
                },
            };
            if job.statements.state(State::Start) == State::TxnOpened {
                let (outcome, session) = self.handle_transaction(job);
                proof {
                    lemma_count_append(trace, session@, Lifecycle::TxnBegin);
                    lemma_count_append(trace, session@, Lifecycle::TxnEnded);
                    lemma_count_append(trace, session@, Lifecycle::TxnTimeout);
                    if session_shape(session@) {
                        lemma_session_exactly_one_terminal(session@);
                    }
                    if partial_session_shape(session@) {
                        lemma_partial_session_counts(session@);
                    }
                    trace = trace + session@;
                }
                if outcome == TxnOutcome::SchedulerGone {
                    return (false, Ghost(trace));
                }
            } else {
                let (ok, step) = self.serve_oneshot(job);
                proof {
                    reveal_with_fuel(count_of, 2);
                    lemma_count_append(trace, step@, Lifecycle::TxnBegin);
                    lemma_count_append(trace, step@, Lifecycle::TxnEnded);
                    lemma_count_append(trace, step@, Lifecycle::TxnTimeout);
                    assert(step@.drop_last() =~= Seq::<Lifecycle>::empty());
                    assert(count_of(step@, Lifecycle::TxnBegin) == 0);
                    assert(terminal_count(step@) == 0);
                    trace = trace + step@;
                }
                if !ok {
                    return (false, Ghost(trace));
                }
            }
        }
        (true, Ghost(trace))
    }
}

} // verus!
