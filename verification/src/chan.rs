use vstd::prelude::*;
use crate::job::Job;
use crate::query::QueryResult;
use crate::scheduler::UpdateStateMessage;

verus! {

// The coordinator's channels come from outside crates: the shared job queue
// and the private per-transaction channel are crossbeam channels, and each
// job's responder is a tokio oneshot sender, consumed by its single send.
// These declarations make the channel handles usable in signatures and
// fields; the values themselves stay opaque.

#[verifier::external_type_specification]
#[verifier::external_body]
#[verifier::reject_recursive_types(T)]
pub struct ExSender<T>(crossbeam::channel::Sender<T>);

#[verifier::external_type_specification]
#[verifier::external_body]
#[verifier::reject_recursive_types(T)]
pub struct ExReceiver<T>(crossbeam::channel::Receiver<T>);

#[verifier::external_type_specification]
#[verifier::external_body]
#[verifier::reject_recursive_types(T)]
pub struct ExOneshotSender<T>(tokio::sync::oneshot::Sender<T>);

#[verifier::external_type_specification]
#[verifier::external_body]
pub struct ExInstant(std::time::Instant);

/// The sending half of a worker's private per-transaction channel, as it
/// travels inside `UpdateStateMessage::TxnBegin`. It is a crossbeam
/// `Sender<Job>`; it stands behind an opaque struct because a job in turn
/// carries a scheduler sender, and Verus refuses the type recursion that
/// the direct channel declaration would close.
#[verifier::external_body]
pub struct JobSender {
    inner: crossbeam::channel::Sender<Job>,
}

impl JobSender {
    /// Relies on crossbeam::channel::Sender::send: delivery fails only when
    /// the receiving worker is gone; `ok` reports which happened.
    #[verifier::external_body]
    pub fn send(&self, j: Job) -> (ok: bool) {
        self.inner.send(j).is_ok()
    }
}

/// Relies on crossbeam::channel::unbounded: a fresh unbounded channel; the
/// private channel a worker opens for one pinned transaction.
#[verifier::external_body]
pub(crate) fn job_channel() -> (r: (JobSender, crossbeam::channel::Receiver<Job>)) {
    let (tx, rx) = crossbeam::channel::unbounded();
    (JobSender { inner: tx }, rx)
}

/// Relies on crossbeam::channel::Sender::send: delivery fails only when
/// every receiver of the channel is gone; `ok` reports which happened.
#[verifier::external_body]
pub(crate) fn send_update(s: &crossbeam::channel::Sender<UpdateStateMessage>, m: UpdateStateMessage) -> (ok: bool) {
    s.send(m).is_ok()
}

/// Relies on crossbeam::channel::Receiver::recv: blocks until a message
/// arrives or the channel is closed and drained, which `None` reports.
#[verifier::external_body]
pub(crate) fn recv_job(r: &crossbeam::channel::Receiver<Job>) -> (j: Option<Job>) {
    match r.recv() {
        Ok(job) => Some(job),
        Err(_) => None,
    }
}

/// Relies on crossbeam::channel::Receiver::recv_deadline: blocks until a
/// message arrives before `deadline`; `None` on timeout, and likewise when
/// the channel disconnects, which the transaction loop treats the same way.
#[verifier::external_body]
pub(crate) fn recv_job_deadline(
    r: &crossbeam::channel::Receiver<Job>,
    deadline: &std::time::Instant,
) -> (j: Option<Job>) {
    match r.recv_deadline(*deadline) {
        Ok(job) => Some(job),
        Err(_) => None,
    }
}

/// Relies on tokio::sync::oneshot::Sender::send: the sender is consumed, so
/// a job's responder carries at most one result; `Err` hands the result back
/// when the receiving side is gone.
#[verifier::external_body]
pub(crate) fn respond(tx: tokio::sync::oneshot::Sender<QueryResult>, m: QueryResult) -> (r: Result<(), QueryResult>) {
    tx.send(m)
}

/// Relies on std::time::Instant::now: the current instant of the monotonic
/// clock.
#[verifier::external_body]
pub(crate) fn instant_now() -> (t: std::time::Instant) {
    std::time::Instant::now()
}

/// Relies on core::time::Duration::from_secs.
#[verifier::external_body]
pub(crate) fn duration_secs(s: u64) -> (d: core::time::Duration) {
    core::time::Duration::from_secs(s)
}

/// Relies on std::time::Instant::checked_add: `None` when the sum cannot be
/// represented.
#[verifier::external_body]
pub(crate) fn instant_add(t: &std::time::Instant, d: core::time::Duration) -> (r: Option<std::time::Instant>) {
    t.checked_add(d)
}

} // verus!
