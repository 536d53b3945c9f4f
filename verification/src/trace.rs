use vstd::prelude::*;

verus! {

/// One lifecycle notification as the trace model sees it: the client id and
/// routing payload are dropped, the kind and the order are kept. A worker
/// records one entry for every notification it hands to the scheduler
/// channel, whether or not the channel still has a listener.
#[derive(Clone, Copy, Debug, PartialEq, Eq, Structural)]
pub enum Lifecycle {
    TxnBegin,
    Ready,
    TxnEnded,
    TxnTimeout,
}

/// A terminal notification: the single way an opened transaction ends.
pub open spec fn is_terminal(m: Lifecycle) -> bool {
    m == Lifecycle::TxnEnded || m == Lifecycle::TxnTimeout
}

/// The shape of a completed interactive-transaction session: it opens with
/// `TxnBegin`, closes with one terminal notification, and everything in
/// between is `Ready`.
pub open spec fn session_shape(t: Seq<Lifecycle>) -> bool {
    &&& t.len() >= 2
    &&& t[0] == Lifecycle::TxnBegin
    &&& is_terminal(t.last())
    &&& forall|i: int| 0 < i < t.len() - 1 ==> t[i] == Lifecycle::Ready
}

/// The shape of an interrupted session: `TxnBegin` followed only by
/// `Ready`. This is what remains when the scheduler channel dies while a
/// transaction is open — the pool-wide assumption that the scheduler stays
/// reachable has failed, and the worker stops.
pub open spec fn partial_session_shape(t: Seq<Lifecycle>) -> bool {
    &&& t.len() >= 1
    &&& t[0] == Lifecycle::TxnBegin
    &&& forall|i: int| 0 < i < t.len() ==> t[i] == Lifecycle::Ready
}

/// How many notifications of kind `m` a trace holds.
pub open spec fn count_of(t: Seq<Lifecycle>, m: Lifecycle) -> nat
    decreases t.len(),
{
    if t.len() == 0 {
        0
    } else {
        count_of(t.drop_last(), m) + if t.last() == m {
            1nat
        } else {
            0nat
        }
    }
}

/// How many terminal notifications a trace holds.
pub open spec fn terminal_count(t: Seq<Lifecycle>) -> nat {
    count_of(t, Lifecycle::TxnEnded) + count_of(t, Lifecycle::TxnTimeout)
}

/// Counting distributes over concatenation of traces.
pub proof fn lemma_count_append(a: Seq<Lifecycle>, b: Seq<Lifecycle>, m: Lifecycle)
    ensures
        count_of(a + b, m) == count_of(a, m) + count_of(b, m),
    decreases b.len(),
{
    if b.len() == 0 {
        assert(a + b =~= a);
    } else {
        assert((a + b).drop_last() =~= a + b.drop_last());
        assert((a + b).last() == b.last());
        lemma_count_append(a, b.drop_last(), m);
    }
}

/// Law: an interrupted session has announced its beginning exactly once and
/// has reached no terminal outcome.
pub proof fn lemma_partial_session_counts(t: Seq<Lifecycle>)
    requires
        partial_session_shape(t),
    ensures
        count_of(t, Lifecycle::TxnBegin) == 1,
        terminal_count(t) == 0,
    decreases t.len(),
{
    reveal_with_fuel(count_of, 3);
    if t.len() == 1 {
        assert(t.drop_last() =~= Seq::<Lifecycle>::empty());
    } else {
        let p = t.drop_last();
        assert(partial_session_shape(p));
        lemma_partial_session_counts(p);
        assert(t.last() == Lifecycle::Ready);
    }
}

/// Law: a completed session notifies the scheduler of exactly one beginning
/// and exactly one terminal outcome — `TxnEnded` or `TxnTimeout`, never
/// both and never neither.
pub proof fn lemma_session_exactly_one_terminal(t: Seq<Lifecycle>)
    requires
        session_shape(t),
    ensures
        count_of(t, Lifecycle::TxnBegin) == 1,
        terminal_count(t) == 1,
{
    let p = t.drop_last();
    assert(partial_session_shape(p));
    lemma_partial_session_counts(p);
}

} // verus!
