//! Groups incoming records so that bursts are applied in few steps while the
//! wait of any record stays bounded by a timeout.

use crate::record::Transaction;
use vstd::prelude::*;

verus! {

/// Records gathered before a batch is handed out.
pub const BATCH_SIZE: usize = 10;

/// Milliseconds after its start past which a batch is handed out.
pub const BATCH_TIMEOUT_MS: u64 = 50;

/// Milliseconds from `since` to `now`; zero when the clock reads earlier.
pub open spec fn elapsed(since: u64, now: u64) -> int {
    if now >= since {
        now - since
    } else {
        0
    }
}

/// The abstract batch: pending records in arrival order and the clock
/// reading at which the batch started.
pub struct BatchView {
    pub items: Seq<Transaction>,
    pub since_ms: u64,
}

/// The batch after `add(tx)` at `now`, and what `add` hands out.
pub open spec fn add_outcome(b: BatchView, tx: Transaction, now: u64) -> (
    BatchView,
    Option<Seq<Transaction>>,
) {
    let items = b.items.push(tx);
    if items.len() >= BATCH_SIZE || elapsed(b.since_ms, now) > BATCH_TIMEOUT_MS {
        (BatchView { items: Seq::empty(), since_ms: now }, Some(items))
    } else {
        (BatchView { items, since_ms: b.since_ms }, None)
    }
}

/// The batch after `flush_if_timeout` at `now`, and what it hands out.
pub open spec fn timeout_outcome(b: BatchView, now: u64) -> (BatchView, Option<Seq<Transaction>>) {
    if b.items.len() > 0 && elapsed(b.since_ms, now) > BATCH_TIMEOUT_MS {
        (BatchView { items: Seq::empty(), since_ms: now }, Some(b.items))
    } else {
        (b, None)
    }
}

/// The batch after adding `txs` in order, the `i`-th at clock reading
/// `times[i]`, and what each add handed out.
pub open spec fn add_all(b: BatchView, txs: Seq<Transaction>, times: Seq<u64>) -> (
    BatchView,
    Seq<Option<Seq<Transaction>>>,
)
    decreases txs.len(),
{
    if txs.len() == 0 || times.len() != txs.len() {
        (b, Seq::empty())
    } else {
        let prev = add_all(b, txs.drop_last(), times.drop_last());
        let step = add_outcome(prev.0, txs.last(), times.last());
        (step.0, prev.1.push(step.1))
    }
}

/// Pending records and the start of the current batch.
#[derive(Debug)]
pub struct TransactionBatch {
    batch: Vec<Transaction>,
    timer_ms: u64,
}

impl View for TransactionBatch {
    type V = BatchView;

    closed spec fn view(&self) -> BatchView {
        BatchView { items: self.batch@, since_ms: self.timer_ms }
    }
}

impl TransactionBatch {
    /// An empty batch started at `now_ms`.
    pub fn new(now_ms: u64) -> (r: Self)
        ensures
            r@.items.len() == 0,
            r@.since_ms == now_ms,
    {
        TransactionBatch { batch: Vec::new(), timer_ms: now_ms }
    }

    /// Adds a record; hands out the whole batch once it holds `BATCH_SIZE`
    /// records or has waited past `BATCH_TIMEOUT_MS`.
    pub fn add(&mut self, tx: Transaction, now_ms: u64) -> (r: Option<Vec<Transaction>>)
        ensures
            (final(self)@, match r {
                Some(v) => Some(v@),
                None => None,
            }) == add_outcome(old(self)@, tx, now_ms),
    {
        self.batch.push(tx);
        if self.batch.len() >= BATCH_SIZE || now_ms.saturating_sub(self.timer_ms)
            > BATCH_TIMEOUT_MS {
            self.take_all(now_ms)
        } else {
            None
        }
    }

    /// On a periodic tick: hands out a non-empty batch that has waited past
    /// `BATCH_TIMEOUT_MS`.
    pub fn flush_if_timeout(&mut self, now_ms: u64) -> (r: Option<Vec<Transaction>>)
        ensures
            (final(self)@, match r {
                Some(v) => Some(v@),
                None => None,
            }) == timeout_outcome(old(self)@, now_ms),
    {
        if self.batch.len() > 0 && now_ms.saturating_sub(self.timer_ms) > BATCH_TIMEOUT_MS {
            self.take_all(now_ms)
        } else {
            None
        }
    }

    /// Hands out a non-empty batch and starts a new one at `now_ms`.
    pub fn flush(&mut self, now_ms: u64) -> (r: Option<Vec<Transaction>>)
        ensures
            old(self)@.items.len() == 0 ==> r is None && final(self)@ == old(self)@,
            old(self)@.items.len() > 0 ==> r is Some && r->0@ == old(self)@.items && final(self)@.items.len() == 0 && final(self)@.since_ms == now_ms,
    {
        if self.batch.len() == 0 {
            return None;
        }
        self.take_all(now_ms)
    }

    fn take_all(&mut self, now_ms: u64) -> (r: Option<Vec<Transaction>>)
        requires
            old(self)@.items.len() > 0,
        ensures
            r == Some(old(self).batch),
            final(self)@ == (BatchView { items: Seq::empty(), since_ms: now_ms }),
    {
        let mut out: Vec<Transaction> = Vec::new();
        std::mem::swap(&mut out, &mut self.batch);
        self.timer_ms = now_ms;
        assert(self.batch@ =~= Seq::<Transaction>::empty());
        Some(out)
    }
}

/// Into an empty batch, records added within the timeout of its start are
/// held back until the `BATCH_SIZE`-th, which hands out all of them in
/// arrival order; and a tick past the timeout hands out exactly the pending
/// records of a non-empty batch.
pub proof fn lemma_batching(
    b: BatchView,
    txs: Seq<Transaction>,
    times: Seq<u64>,
    pending: BatchView,
    now: u64,
)
    requires
        b.items.len() == 0,
        txs.len() == BATCH_SIZE,
        times.len() == BATCH_SIZE,
        forall|i: int| 0 <= i < times.len() ==> elapsed(b.since_ms, #[trigger] times[i]) <= BATCH_TIMEOUT_MS,
        0 < pending.items.len() < BATCH_SIZE,
        elapsed(pending.since_ms, now) > BATCH_TIMEOUT_MS,
    ensures
        forall|i: int| 0 <= i < BATCH_SIZE - 1 ==> (#[trigger] add_all(b, txs, times).1[i]) is None,
        add_all(b, txs, times).1.len() == BATCH_SIZE,
        add_all(b, txs, times).1[BATCH_SIZE - 1] == Some(txs),
        add_all(b, txs, times).0.items.len() == 0,
        timeout_outcome(pending, now).1 == Some(pending.items),
        timeout_outcome(pending, now).0.items.len() == 0,
{
    lemma_fill_prefix(b, txs, times, (BATCH_SIZE - 1) as nat);
    let k = (BATCH_SIZE - 1) as int;
    assert(txs.drop_last() =~= txs.subrange(0, k));
    assert(times.drop_last() =~= times.subrange(0, k));
    assert(txs.subrange(0, k).push(txs.last()) =~= txs);
}

/// Before the `BATCH_SIZE`-th record, adds within the timeout only gather.
proof fn lemma_fill_prefix(b: BatchView, txs: Seq<Transaction>, times: Seq<u64>, k: nat)
    requires
        b.items.len() == 0,
        k < BATCH_SIZE,
        k <= txs.len(),
        txs.len() == times.len(),
        forall|i: int| 0 <= i < times.len() ==> elapsed(b.since_ms, #[trigger] times[i]) <= BATCH_TIMEOUT_MS,
    ensures
        add_all(b, txs.subrange(0, k as int), times.subrange(0, k as int)).0 == (BatchView {
            items: txs.subrange(0, k as int),
            since_ms: b.since_ms,
        }),
        add_all(b, txs.subrange(0, k as int), times.subrange(0, k as int)).1.len() == k,
        forall|i: int|
            0 <= i < k ==> (#[trigger] add_all(
                b,
                txs.subrange(0, k as int),
                times.subrange(0, k as int),
            ).1[i]) is None,
    decreases k,
{
    if k == 0 {
        assert(txs.subrange(0, 0) =~= Seq::<Transaction>::empty());
        assert(b.items =~= txs.subrange(0, 0));
    } else {
        lemma_fill_prefix(b, txs, times, (k - 1) as nat);
        let t = txs.subrange(0, k as int);
        let s = times.subrange(0, k as int);
        assert(t.drop_last() =~= txs.subrange(0, k - 1));
        assert(s.drop_last() =~= times.subrange(0, k - 1));
        assert(s.last() == times[k - 1]);
        assert(txs.subrange(0, k - 1).push(t.last()) =~= t);
    }
}

} // verus!
