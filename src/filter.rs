use vstd::prelude::*;
use vstd::relations::{sorted_by, total_ordering};

verus! {

pub open spec fn sample_leq(a: i64, b: i64) -> bool {
    a <= b
}

/// The middle element of `w` in ascending order.
pub open spec fn median_of(w: Seq<i64>) -> i64 {
    w.sort_by(|a: i64, b: i64| sample_leq(a, b))[(w.len() / 2) as int]
}

proof fn lemma_sample_order()
    ensures
        total_ordering(|a: i64, b: i64| sample_leq(a, b)),
{
}

/// `v` in ascending order.
fn sorted_copy(v: &Vec<i64>) -> (r: Vec<i64>)
    ensures
        r@ == v@.sort_by(|a: i64, b: i64| sample_leq(a, b)),
        r@.len() == v@.len(),
{
    let ghost leq = |a: i64, b: i64| sample_leq(a, b);
    let mut out: Vec<i64> = Vec::new();
    let mut i: usize = 0;
    assert(v@.take(0) =~= out@);
    while i < v.len()
        invariant
            leq == (|a: i64, b: i64| sample_leq(a, b)),
            i <= v@.len(),
            sorted_by(out@, leq),
            out@.to_multiset() == v@.take(i as int).to_multiset(),
        decreases v.len() - i,
    {
        let x = v[i];
        let mut p: usize = 0;
        while p < out.len() && out[p] <= x
            invariant
                leq == (|a: i64, b: i64| sample_leq(a, b)),
                p <= out@.len(),
                sorted_by(out@, leq),
                forall|j: int| 0 <= j < p ==> out@[j] <= x,
            decreases out.len() - p,
        {
            p = p + 1;
        }
        let ghost before = out@;
        out.insert(p, x);
        proof {
            assert(p < before.len() ==> x < before[p as int]);
            assert forall|a: int, b: int| 0 <= a < b < out@.len() implies out@[a] <= out@[b] by {
                let va = if a < p {
                    before[a]
                } else if a == p {
                    x
                } else {
                    before[a - 1]
                };
                let vb = if b < p {
                    before[b]
                } else if b == p {
                    x
                } else {
                    before[b - 1]
                };
                assert(out@[a] == va);
                assert(out@[b] == vb);
                if b > p {
                    assert(x < before[p as int]);
                    if b - 1 > p {
                        assert(leq(before[p as int], before[b - 1]));
                        assert(before[p as int] <= before[b - 1]);
                    }
                    assert(x < vb);
                    if a > p {
                        assert(leq(before[a - 1], before[b - 1]));
                        assert(va <= vb);
                    } else if a < p {
                        assert(before[a] <= x);
                        assert(va <= vb);
                    }
                } else if b == p {
                    assert(before[a] <= x);
                } else {
                    assert(leq(before[a], before[b]));
                    assert(va <= vb);
                }
            }
            assert(sorted_by(out@, leq));
            vstd::seq_lib::to_multiset_insert(before, p as int, x);
            assert(v@.take(i + 1) =~= v@.take(i as int).push(x));
            vstd::seq_lib::to_multiset_build(v@.take(i as int), x);
        }
        i = i + 1;
    }
    proof {
        assert(v@.take(v@.len() as int) =~= v@);
        lemma_sample_order();
        v@.lemma_sort_by_ensures(leq);
        vstd::seq_lib::lemma_sorted_unique(out@, v@.sort_by(leq), leq);
        vstd::seq_lib::to_multiset_len(out@);
        vstd::seq_lib::to_multiset_len(v@);
    }
    out
}

/// Sliding-window median over the last `size` samples.
pub struct MedianFilter {
    window: Vec<i64>,
    size: usize,
    position: usize,
    filled: bool,
}

impl MedianFilter {
    pub open spec fn wf(&self) -> bool {
        &&& self.spec_size() % 2 == 1
        &&& self.view().len() == self.spec_size()
        &&& self.spec_position() < self.spec_size()
    }

    /// The window slots; unwritten slots hold zero.
    pub closed spec fn view(&self) -> Seq<i64> {
        self.window@
    }

    pub closed spec fn spec_size(&self) -> nat {
        self.size as nat
    }

    /// Slot the next sample is written to.
    pub closed spec fn spec_position(&self) -> nat {
        self.position as nat
    }

    /// Whether every slot has been written since the last reset.
    pub closed spec fn spec_filled(&self) -> bool {
        self.filled
    }

    /// A filter over windows of `size` samples; `size` must be odd.
    pub fn new(size: usize) -> (r: MedianFilter)
        requires
            size % 2 == 1,
        ensures
            r.wf(),
            r.spec_size() == size,
            r.view() == Seq::new(size as nat, |i: int| 0i64),
            r.spec_position() == 0,
            !r.spec_filled(),
    {
        let mut window: Vec<i64> = Vec::new();
        let mut i: usize = 0;
        while i < size
            invariant
                i <= size,
                window@ == Seq::new(i as nat, |j: int| 0i64),
            decreases size - i,
        {
            window.push(0);
            i = i + 1;
            assert(window@ =~= Seq::new(i as nat, |j: int| 0i64));
        }
        MedianFilter { window, size, position: 0, filled: false }
    }

    /// Writes `value` into the window and returns the window's median once
    /// every slot has been written, `value` itself before that.
    pub fn filter(&mut self, value: i64) -> (r: i64)
        requires
            old(self).wf(),
        ensures
            final(self).wf(),
            final(self).spec_size() == old(self).spec_size(),
            final(self).view() == old(self).view().update(old(self).spec_position() as int, value),
            final(self).spec_position() == (old(self).spec_position() + 1) % old(self).spec_size(),
            final(self).spec_filled() == (old(self).spec_filled() || final(self).spec_position()
                == 0),
            r == if final(self).spec_filled() {
                median_of(final(self).view())
            } else {
                value
            },
    {
        self.window.set(self.position, value);
        self.position = if self.position + 1 == self.size {
            0
        } else {
            self.position + 1
        };
        proof {
            let sz = old(self).size as int;
            let np = old(self).position as int + 1;
            if np < sz {
                vstd::arithmetic::div_mod::lemma_small_mod(np as nat, sz as nat);
            } else {
                vstd::arithmetic::div_mod::lemma_mod_self_0(sz);
            }
        }
        if self.position == 0 {
            self.filled = true;
        }
        if !self.filled {
            return value;
        }
        let sorted = sorted_copy(&self.window);
        sorted[self.size / 2]
    }

    /// Empties the window.
    pub fn reset(&mut self)
        requires
            old(self).wf(),
        ensures
            final(self).wf(),
            final(self).spec_size() == old(self).spec_size(),
            final(self).view() == Seq::new(old(self).spec_size(), |i: int| 0i64),
            final(self).spec_position() == 0,
            !final(self).spec_filled(),
    {
        let mut i: usize = 0;
        while i < self.window.len()
            invariant
                self.size == old(self).size,
                self.window@.len() == old(self).window@.len(),
                self.window@.len() == self.size,
                i <= self.window@.len(),
                forall|j: int| 0 <= j < i ==> self.window@[j] == 0,
            decreases self.window.len() - i,
        {
            self.window.set(i, 0);
            i = i + 1;
        }
        assert(self.window@ =~= Seq::new(self.size as nat, |i: int| 0i64));
        self.position = 0;
        self.filled = false;
    }
}

/// A window holding one value `x` throughout has median `x`: on a constant
/// stream the filter's output is the stream's value.
pub proof fn lemma_median_of_constant(w: Seq<i64>, x: i64)
    requires
        w.len() > 0,
        forall|i: int| 0 <= i < w.len() ==> w[i] == x,
    ensures
        median_of(w) == x,
{
    let leq = |a: i64, b: i64| sample_leq(a, b);
    lemma_sample_order();
    w.lemma_sort_by_ensures(leq);
    let s = w.sort_by(leq);
    assert(s.to_multiset().len() == w.to_multiset().len());
    vstd::seq_lib::to_multiset_len(s);
    vstd::seq_lib::to_multiset_len(w);
    let m = s[(w.len() / 2) as int];
    assert(s.contains(m));
    if m != x {
        assert(!w.contains(m));
    }
}

} // verus!

verus! {

/// Every slot written since the last reset holds `x`.
pub open spec fn written_slots_hold(f: MedianFilter, x: i64) -> bool {
    forall|i: int|
        0 <= i < f.view().len() && (f.spec_filled() || i < f.spec_position()) ==> #[trigger] f.view()[i]
            == x
}

/// Constant stream: when every sample since the last reset was `x`, feeding
/// `x` once more outputs `x` (the input itself before the window fills, the
/// median of a window of `x` after), and every written slot still holds `x`.
/// `after` and `out` are the state and output that `filter` promises.
pub proof fn lemma_constant_stream(before: MedianFilter, after: MedianFilter, x: i64, out: i64)
    requires
        before.wf(),
        written_slots_hold(before, x),
        after.spec_size() == before.spec_size(),
        after.view() == before.view().update(before.spec_position() as int, x),
        after.spec_position() == (before.spec_position() + 1) % before.spec_size(),
        after.spec_filled() == (before.spec_filled() || after.spec_position() == 0),
        out == if after.spec_filled() {
            median_of(after.view())
        } else {
            x
        },
    ensures
        out == x,
        written_slots_hold(after, x),
{
    let sz = before.spec_size() as int;
    let p = before.spec_position() as int;
    if p + 1 < sz {
        vstd::arithmetic::div_mod::lemma_small_mod((p + 1) as nat, sz as nat);
    } else {
        vstd::arithmetic::div_mod::lemma_mod_self_0(sz);
    }
    assert forall|i: int|
        0 <= i < after.view().len() && (after.spec_filled() || i < after.spec_position()) implies #[trigger] after.view()[i]
        == x by {
        if i != p {
            assert(before.view()[i] == x);
        }
    }
    if after.spec_filled() {
        lemma_median_of_constant(after.view(), x);
    }
}

} // verus!
