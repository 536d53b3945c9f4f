use vstd::prelude::*;
use crate::query::QueryResult;
use crate::scheduler::ClientId;
use crate::scheduler::UpdateStateMessage;
use crate::statements::Statements;

verus! {

/// One unit of client work: a statement batch, the one-shot channel its
/// result goes back on, and the channel lifecycle notifications go out on.
/// A job moves into the shared queue and is consumed by exactly one worker.
pub struct Job {
    pub client_id: ClientId,
    pub statements: Statements,
    pub responder: tokio::sync::oneshot::Sender<QueryResult>,
    pub scheduler_sender: crossbeam::channel::Sender<UpdateStateMessage>,
}

} // verus!
