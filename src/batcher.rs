use vstd::prelude::*;

verus! {

/// What the batching loop does next.
#[derive(Debug, Clone, Copy, PartialEq, Eq, Structural)]
pub enum BatchAction {
    /// Nothing is pending: block for the first item.
    WaitFirst,
    /// Take further items until the given instant (ms), then ask again.
    WaitUntil(u64),
    /// Hand the pending batch to the classifier now.
    Dispatch,
}

/// `a + b`, saturating at the largest instant.
pub open spec fn deadline_after(a: u64, b: u64) -> u64 {
    if a + b > u64::MAX {
        u64::MAX
    } else {
        (a + b) as u64
    }
}

/// Collects items into batches that close when full or when the first item
/// has waited `timeout_ms`.
pub struct BatchCollector<T> {
    pending: Vec<T>,
    batch_size: usize,
    timeout_ms: u64,
    first_at_ms: u64,
    arrivals: Ghost<Seq<u64>>,
}

impl<T> BatchCollector<T> {
    pub open spec fn wf(&self) -> bool {
        &&& self.spec_batch_size() > 0
        &&& self.arrivals().len() == self.pending().len()
        &&& forall|i: int|
            0 <= i < self.arrivals().len() ==> self.spec_first_at() <= #[trigger] self.arrivals()[i]
    }

    /// Items waiting for the classifier, in arrival order.
    pub closed spec fn pending(&self) -> Seq<T> {
        self.pending@
    }

    /// Arrival instant (ms) of each pending item.
    pub closed spec fn arrivals(&self) -> Seq<u64> {
        self.arrivals@
    }

    pub closed spec fn spec_batch_size(&self) -> nat {
        self.batch_size as nat
    }

    pub closed spec fn spec_timeout_ms(&self) -> u64 {
        self.timeout_ms
    }

    /// Arrival instant of the first pending item.
    pub closed spec fn spec_first_at(&self) -> u64 {
        self.first_at_ms
    }

    /// The action at `now`.
    pub open spec fn action_at(&self, now: u64) -> BatchAction {
        if self.pending().len() == 0 {
            BatchAction::WaitFirst
        } else if self.pending().len() >= self.spec_batch_size() || now >= deadline_after(
            self.spec_first_at(),
            self.spec_timeout_ms(),
        ) {
            BatchAction::Dispatch
        } else {
            BatchAction::WaitUntil(deadline_after(self.spec_first_at(), self.spec_timeout_ms()))
        }
    }

    /// An empty collector for batches of `batch_size` with the given timeout.
    pub fn new(batch_size: usize, timeout_ms: u64) -> (r: BatchCollector<T>)
        requires
            batch_size > 0,
        ensures
            r.wf(),
            r.pending().len() == 0,
            r.spec_batch_size() == batch_size,
            r.spec_timeout_ms() == timeout_ms,
    {
        BatchCollector {
            pending: Vec::new(),
            batch_size,
            timeout_ms,
            first_at_ms: 0,
            arrivals: Ghost(Seq::empty()),
        }
    }

    /// Adds `item`, arrived at `now_ms`; the first item of a batch starts its clock.
    pub fn add(&mut self, item: T, now_ms: u64)
        requires
            old(self).wf(),
            old(self).pending().len() > 0 ==> old(self).spec_first_at() <= now_ms,
        ensures
            final(self).wf(),
            final(self).pending() == old(self).pending().push(item),
            final(self).arrivals() == old(self).arrivals().push(now_ms),
            final(self).spec_first_at() == if old(self).pending().len() == 0 {
                now_ms
            } else {
                old(self).spec_first_at()
            },
            final(self).spec_batch_size() == old(self).spec_batch_size(),
            final(self).spec_timeout_ms() == old(self).spec_timeout_ms(),
    {
        if self.pending.len() == 0 {
            self.first_at_ms = now_ms;
        }
        self.pending.push(item);
        self.arrivals = Ghost(self.arrivals@.push(now_ms));
    }

    /// What to do at `now_ms`: wait for a first item, dispatch a full or
    /// timed-out batch, or keep collecting until the first item's deadline.
    pub fn next_action(&self, now_ms: u64) -> (r: BatchAction)
        requires
            self.wf(),
        ensures
            r == self.action_at(now_ms),
    {
        if self.pending.len() == 0 {
            return BatchAction::WaitFirst;
        }
        let deadline = self.first_at_ms.saturating_add(self.timeout_ms);
        if self.pending.len() >= self.batch_size || now_ms >= deadline {
            BatchAction::Dispatch
        } else {
            BatchAction::WaitUntil(deadline)
        }
    }

    /// Hands out the pending batch, in arrival order, and starts a new one.
    pub fn take_batch(&mut self) -> (r: Vec<T>)
        requires
            old(self).wf(),
        ensures
            final(self).wf(),
            r@ == old(self).pending(),
            final(self).pending().len() == 0,
            final(self).spec_batch_size() == old(self).spec_batch_size(),
            final(self).spec_timeout_ms() == old(self).spec_timeout_ms(),
    {
        let batch = self.pending.split_off(0);
        assert(batch@ =~= old(self).pending@);
        self.arrivals = Ghost(Seq::empty());
        batch
    }

    /// Number of pending items.
    pub fn len(&self) -> (r: usize)
        ensures
            r == self.pending().len(),
    {
        self.pending.len()
    }
}

/// Latency bound: while a batch is pending, the loop is never told to wait
/// past `a + timeout` for any pending item that arrived at `a`, and at that
/// instant it is told to dispatch.
pub proof fn lemma_wait_bounded_by_arrival<T>(c: BatchCollector<T>, i: int, now: u64)
    requires
        c.wf(),
        0 <= i < c.pending().len(),
    ensures
        c.action_at(now) matches BatchAction::WaitUntil(d) ==> d <= deadline_after(
            c.arrivals()[i],
            c.spec_timeout_ms(),
        ),
        now >= deadline_after(c.arrivals()[i], c.spec_timeout_ms()) ==> c.action_at(now)
            == BatchAction::Dispatch,
{
}

} // verus!
