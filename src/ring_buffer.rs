use vstd::prelude::*;
use crate::sensor::SensorFrame;

verus! {

/// Capacity used by `RingBuffer::with_default_capacity`.
pub const DEFAULT_CAPACITY: usize = 3000;

/// The last `n` items of `s` (all of `s` when it is shorter).
pub open spec fn keep_last<T>(s: Seq<T>, n: nat) -> Seq<T> {
    if s.len() <= n {
        s
    } else {
        s.subrange(s.len() - n, s.len() as int)
    }
}

/// Contents, oldest first, after one push on a buffer of capacity `cap`:
/// one slot stays free, so at most `cap - 1` frames remain.
pub open spec fn after_push(s: Seq<SensorFrame>, cap: nat, f: SensorFrame) -> Seq<SensorFrame> {
    keep_last(s.push(f), (cap - 1) as nat)
}

/// Contents after pushing each frame of `frames` in order.
pub open spec fn after_pushes(s: Seq<SensorFrame>, cap: nat, frames: Seq<SensorFrame>) -> Seq<
    SensorFrame,
>
    decreases frames.len(),
{
    if frames.len() == 0 {
        s
    } else {
        after_push(after_pushes(s, cap, frames.drop_last()), cap, frames.last())
    }
}

/// `s` newest first.
pub open spec fn newest_first(s: Seq<SensorFrame>) -> Seq<SensorFrame> {
    Seq::new(s.len(), |j: int| s[s.len() - 1 - j])
}

/// How many frames, newest first, have a timestamp at or after `cutoff`
/// before the first one that does not.
pub open spec fn recent_prefix_len(s: Seq<SensorFrame>, cutoff: u64) -> nat
    decreases s.len(),
{
    if s.len() == 0 {
        0
    } else if s[0].timestamp_ms >= cutoff {
        1 + recent_prefix_len(s.drop_first(), cutoff)
    } else {
        0
    }
}

/// Pushing `frames` one by one on an empty buffer of capacity `cap` leaves
/// exactly the last `min(frames.len(), cap - 1)` of them, in push order:
/// the length never exceeds `cap - 1` and the newest frames are the ones kept.
pub proof fn lemma_pushes_keep_newest(cap: nat, frames: Seq<SensorFrame>)
    requires
        cap > 0,
    ensures
        after_pushes(Seq::empty(), cap, frames) == keep_last(frames, (cap - 1) as nat),
        after_pushes(Seq::empty(), cap, frames).len() <= cap - 1,
    decreases frames.len(),
{
    let n = (cap - 1) as nat;
    if frames.len() > 0 {
        let prev = frames.drop_last();
        let f = frames.last();
        lemma_pushes_keep_newest(cap, prev);
        assert(prev.push(f) =~= frames);
        let k = keep_last(prev, n);
        if prev.len() + 1 <= n {
            assert(keep_last(k.push(f), n) =~= keep_last(frames, n));
        } else if prev.len() <= n {
            assert(keep_last(k.push(f), n) =~= keep_last(frames, n));
        } else {
            assert(keep_last(k.push(f), n) =~= keep_last(frames, n));
        }
    } else {
        assert(keep_last(frames, n) =~= frames);
    }
}

/// Bounded history of sensor frames that overwrites its oldest frame when full.
pub struct RingBuffer {
    storage: Vec<SensorFrame>,
    capacity: usize,
    head: usize,
    tail: usize,
    total_written: usize,
}

impl RingBuffer {
    pub closed spec fn wf(&self) -> bool {
        &&& self.capacity > 0
        &&& self.storage@.len() == self.capacity
        &&& self.head < self.capacity
        &&& self.tail < self.capacity
    }

    pub closed spec fn spec_capacity(&self) -> nat {
        self.capacity as nat
    }

    pub closed spec fn spec_total_written(&self) -> nat {
        self.total_written as nat
    }

    spec fn len_spec(&self) -> nat {
        if self.head >= self.tail {
            (self.head - self.tail) as nat
        } else {
            (self.capacity - self.tail + self.head) as nat
        }
    }

    spec fn slot(&self, i: int) -> int {
        if self.tail + i < self.capacity {
            self.tail + i
        } else {
            self.tail + i - self.capacity
        }
    }

    /// The frames held, oldest first.
    pub closed spec fn view(&self) -> Seq<SensorFrame> {
        Seq::new(self.len_spec(), |i: int| self.storage@[self.slot(i)])
    }

    proof fn lemma_len_bound(&self)
        requires
            self.wf(),
        ensures
            self.view().len() < self.capacity,
    {
    }

    /// An empty buffer that holds at most `capacity - 1` frames.
    pub fn new(capacity: usize) -> (r: RingBuffer)
        requires
            capacity > 0,
        ensures
            r.wf(),
            r.spec_capacity() == capacity,
            r.view() == Seq::<SensorFrame>::empty(),
            r.spec_total_written() == 0,
    {
        let mut storage: Vec<SensorFrame> = Vec::with_capacity(capacity);
        let mut i: usize = 0;
        while i < capacity
            invariant
                i <= capacity,
                storage@.len() == i,
            decreases capacity - i,
        {
            storage.push(SensorFrame::new(0));
            i = i + 1;
        }
        let r = RingBuffer { storage, capacity, head: 0, tail: 0, total_written: 0 };
        assert(r.view() =~= Seq::<SensorFrame>::empty());
        r
    }

    /// An empty buffer of `DEFAULT_CAPACITY` slots.
    pub fn with_default_capacity() -> (r: RingBuffer)
        ensures
            r.wf(),
            r.spec_capacity() == DEFAULT_CAPACITY,
            r.view() == Seq::<SensorFrame>::empty(),
            r.spec_total_written() == 0,
    {
        RingBuffer::new(DEFAULT_CAPACITY)
    }

    /// Appends `frame`; when the buffer is full the oldest frame is dropped.
    pub fn push(&mut self, frame: SensorFrame)
        requires
            old(self).wf(),
            old(self).spec_total_written() < usize::MAX,
        ensures
            final(self).wf(),
            final(self).spec_capacity() == old(self).spec_capacity(),
            final(self).view() == after_push(old(self).view(), old(self).spec_capacity(), frame),
            final(self).spec_total_written() == old(self).spec_total_written() + 1,
    {
        let ghost old_view = self.view();
        let ghost old_self = *self;
        let head = self.head;
        let next_head: usize = if head + 1 == self.capacity {
            0
        } else {
            head + 1
        };
        self.storage.set(head, frame);
        self.head = next_head;
        self.total_written = self.total_written + 1;
        if next_head == self.tail {
            self.tail = if self.tail + 1 == self.capacity {
                0
            } else {
                self.tail + 1
            };
        }
        proof {
            let cap = self.capacity as nat;
            let expected = after_push(old_view, cap, frame);
            let pushed = old_view.push(frame);
            assert(old_view.len() == old_self.len_spec());
            if old_self.len_spec() + 1 < cap {
                assert(self.len_spec() == old_self.len_spec() + 1);
                assert forall|i: int| 0 <= i < self.len_spec() implies self.view()[i] == pushed[i] by {
                    if i < old_view.len() {
                        assert(old_self.slot(i) != head as int);
                    }
                }
                assert(self.view() =~= expected);
            } else {
                assert(self.len_spec() == old_self.len_spec());
                assert forall|i: int| 0 <= i < self.len_spec() implies self.view()[i] == pushed[i
                    + 1] by {
                    if i + 1 < old_view.len() {
                        assert(old_self.slot(i + 1) != head as int);
                    }
                }
                assert(self.view() =~= expected);
            }
        }
    }

    /// Number of frames held.
    pub fn len(&self) -> (r: usize)
        requires
            self.wf(),
        ensures
            r == self.view().len(),
    {
        if self.head >= self.tail {
            self.head - self.tail
        } else {
            self.capacity - self.tail + self.head
        }
    }

    /// Whether no frame is held.
    pub fn is_empty(&self) -> (r: bool)
        requires
            self.wf(),
        ensures
            r == (self.view().len() == 0),
    {
        self.len() == 0
    }

    /// Whether the next push drops the oldest frame.
    pub fn is_full(&self) -> (r: bool)
        requires
            self.wf(),
        ensures
            r == (self.view().len() == self.spec_capacity() - 1),
    {
        self.len() == self.capacity - 1
    }

    /// Number of slots, one of which always stays free.
    pub fn capacity(&self) -> (r: usize)
        ensures
            r == self.spec_capacity(),
    {
        self.capacity
    }

    /// The newest `count` frames (all of them when fewer are held), newest first.
    pub fn read_last(&self, count: usize) -> (r: Vec<SensorFrame>)
        requires
            self.wf(),
        ensures
            r@ == newest_first(self.view()).take(
                if count < self.view().len() {
                    count as int
                } else {
                    self.view().len() as int
                },
            ),
    {
        let len = self.len();
        let n = if count < len {
            count
        } else {
            len
        };
        let head = self.head;
        let mut frames: Vec<SensorFrame> = Vec::with_capacity(n);
        let mut i: usize = 0;
        while i < n
            invariant
                self.wf(),
                n <= len,
                len == self.view().len(),
                head == self.head,
                i <= n,
                frames@ == newest_first(self.view()).take(i as int),
            decreases n - i,
        {
            let idx: usize = if head >= i + 1 {
                head - i - 1
            } else {
                self.capacity - (i + 1 - head)
            };
            assert(idx == self.slot(len - 1 - i));
            frames.push(self.storage[idx]);
            i = i + 1;
            assert(frames@ =~= newest_first(self.view()).take(i as int));
        }
        frames
    }

    /// The newest frames stamped at or after `now_ms - duration_ms`
    /// (saturating at zero), newest first, up to the first older one.
    pub fn read_window(&self, duration_ms: u64, now_ms: u64) -> (r: Vec<SensorFrame>)
        requires
            self.wf(),
        ensures
            r@ == newest_first(self.view()).take(
                recent_prefix_len(
                    newest_first(self.view()),
                    if now_ms >= duration_ms {
                        (now_ms - duration_ms) as u64
                    } else {
                        0
                    },
                ) as int,
            ),
    {
        let cutoff: u64 = now_ms.saturating_sub(duration_ms);
        let all = self.read_last(self.len());
        let ghost s = newest_first(self.view());
        assert(all@ =~= s);
        let mut out: Vec<SensorFrame> = Vec::new();
        let mut i: usize = 0;
        let mut done = false;
        assert(s.skip(0) =~= s);
        while i < all.len() && !done
            invariant
                all@ == s,
                i <= s.len(),
                out@ == s.take(i as int),
                recent_prefix_len(s, cutoff) == i + recent_prefix_len(s.skip(i as int), cutoff),
                done ==> i < s.len() && recent_prefix_len(s.skip(i as int), cutoff) == 0,
            decreases all.len() - i + (if done { 0int } else { 1int }),
        {
            let ghost rest = s.skip(i as int);
            assert(rest[0] == s[i as int]);
            if all[i].timestamp_ms < cutoff {
                assert(recent_prefix_len(rest, cutoff) == 0);
                done = true;
            } else {
                assert(rest.drop_first() =~= s.skip(i + 1));
                assert(recent_prefix_len(rest, cutoff) == 1 + recent_prefix_len(
                    rest.drop_first(),
                    cutoff,
                ));
                out.push(all[i]);
                i = i + 1;
                assert(out@ =~= s.take(i as int));
            }
        }
        proof {
            if i == s.len() {
                assert(s.skip(i as int).len() == 0);
                assert(recent_prefix_len(s.skip(i as int), cutoff) == 0);
            }
        }
        out
    }

    /// Frames pushed since the buffer was made.
    pub fn total_written(&self) -> (r: usize)
        ensures
            r == self.spec_total_written(),
    {
        self.total_written
    }

    /// Drops every frame held.
    pub fn clear(&mut self)
        requires
            old(self).wf(),
        ensures
            final(self).wf(),
            final(self).spec_capacity() == old(self).spec_capacity(),
            final(self).spec_total_written() == old(self).spec_total_written(),
            final(self).view() == Seq::<SensorFrame>::empty(),
    {
        self.tail = self.head;
        assert(self.view() =~= Seq::<SensorFrame>::empty());
    }

    /// A buffer never holds more than `capacity - 1` frames.
    pub proof fn lemma_holds_fewer_than_capacity(&self)
        requires
            self.wf(),
        ensures
            self.view().len() <= self.spec_capacity() - 1,
    {
        self.lemma_len_bound();
    }
}

} // verus!
