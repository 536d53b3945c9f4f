use vstd::prelude::*;
use crate::chan::JobSender;

verus! {

/// Identity of the client that submitted a job.
pub type ClientId = u64;

/// Lifecycle notification sent to the external per-client session tracker.
///
/// `TxnBegin` carries the sending half of the worker's private channel: the
/// tracker routes the client's follow-up jobs through it, straight to the
/// worker that holds the transaction, instead of the shared queue. The
/// other three are fire-and-forget.
pub enum UpdateStateMessage {
    TxnBegin(ClientId, JobSender),
    Ready(ClientId),
    TxnEnded(ClientId),
    TxnTimeout(ClientId),
}

} // verus!
