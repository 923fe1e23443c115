//! Fixed-capacity rolling windows of integer samples, with strict FIFO
//! eviction, and the sum / maximum / minimum queries the analyzer derives
//! from them.

use vstd::prelude::*;

verus! {

/// Largest sample value a window accepts. Together with the capacity bound it
/// keeps every windowed sum far below `u64::MAX`.
pub const WINDOW_SAMPLE_MAX: u64 = 0x1_0000_0000;

/// Largest capacity a window may be created with.
pub const WINDOW_CAPACITY_MAX: usize = 10_000;

/// Sum of a sequence of samples.
pub open spec fn seq_sum(s: Seq<u64>) -> int
    decreases s.len(),
{
    if s.len() == 0 {
        0
    } else {
        seq_sum(s.drop_last()) + s.last()
    }
}

/// Maximum of a sequence of samples; 0 for the empty sequence.
pub open spec fn seq_max(s: Seq<u64>) -> u64
    decreases s.len(),
{
    if s.len() == 0 {
        0
    } else if s.last() >= seq_max(s.drop_last()) {
        s.last()
    } else {
        seq_max(s.drop_last())
    }
}

/// Minimum of a sequence of samples; `u64::MAX` for the empty sequence.
pub open spec fn seq_min(s: Seq<u64>) -> u64
    decreases s.len(),
{
    if s.len() == 0 {
        u64::MAX
    } else if s.last() <= seq_min(s.drop_last()) {
        s.last()
    } else {
        seq_min(s.drop_last())
    }
}

/// What a window of capacity `cap` holds after the pushes in `hist`: the most
/// recent `cap` of them, in insertion order.
pub open spec fn recent(hist: Seq<u64>, cap: int) -> Seq<u64> {
    if hist.len() <= cap {
        hist
    } else {
        hist.subrange(hist.len() - cap, hist.len() as int)
    }
}

/// One push onto a window's contents: append, evicting the oldest element
/// once the window is full.
pub open spec fn push_model(s: Seq<u64>, cap: int, v: u64) -> Seq<u64> {
    if s.len() < cap {
        s.push(v)
    } else {
        s.subrange(1, s.len() as int).push(v)
    }
}

/// A fixed-capacity ordered window of samples: the oldest element is evicted
/// first, and the length never exceeds the capacity.
pub struct Window {
    items: Vec<u64>,
    cap: usize,
    hist: Ghost<Seq<u64>>,
}

impl View for Window {
    type V = Seq<u64>;

    closed spec fn view(&self) -> Seq<u64> {
        self.items@
    }
}

impl Window {
    /// The window's fixed capacity.
    pub closed spec fn cap(&self) -> usize {
        self.cap
    }

    /// Every sample ever pushed, in insertion order.
    pub closed spec fn history(&self) -> Seq<u64> {
        self.hist@
    }

    /// The window holds exactly the most recent pushes, never more than its
    /// capacity, and only bounded samples.
    pub closed spec fn wf(&self) -> bool {
        &&& 1 <= self.cap <= WINDOW_CAPACITY_MAX
        &&& self@ == recent(self.hist@, self.cap as int)
        &&& forall|i: int| 0 <= i < self@.len() ==> self@[i] <= WINDOW_SAMPLE_MAX
    }

    pub fn new(cap: usize) -> (w: Window)
        requires
            1 <= cap <= WINDOW_CAPACITY_MAX,
        ensures
            w.wf(),
            w.cap() == cap,
            w@ == Seq::<u64>::empty(),
            w.history() == Seq::<u64>::empty(),
    {
        let w = Window { items: Vec::new(), cap, hist: Ghost(Seq::empty()) };
        proof {
            assert(w@ =~= recent(w.hist@, w.cap as int));
        }
        w
    }

    pub fn len(&self) -> (n: usize)
        ensures
            n == self@.len(),
    {
        self.items.len()
    }

    /// The sample at position `i`, oldest first.
    pub fn get(&self, i: usize) -> (r: u64)
        requires
            i < self@.len(),
        ensures
            r == self@[i as int],
    {
        self.items[i]
    }

    /// Push a sample, evicting the oldest one if the window is full.
    pub fn push(&mut self, v: u64)
        requires
            old(self).wf(),
            v <= WINDOW_SAMPLE_MAX,
        ensures
            final(self).wf(),
            final(self).cap() == old(self).cap(),
            final(self).history() == old(self).history().push(v),
            final(self)@ == push_model(old(self)@, old(self).cap() as int, v),
            final(self)@.len() <= old(self).cap(),
    {
        let ghost pre = self@;
        let ghost prehist = self.hist@;
        let ghost cap = self.cap as int;
        if self.items.len() == self.cap {
            self.items.remove(0);
        }
        self.items.push(v);
        proof {
            self.hist@ = self.hist@.push(v);
            if pre.len() < cap {
                assert(self@ =~= pre.push(v));
            } else {
                assert(self@ =~= pre.subrange(1, pre.len() as int).push(v));
            }
            assert(self@ =~= recent(self.hist@, cap));
        }
    }

    /// Sum of the samples currently held.
    pub fn sum(&self) -> (r: u64)
        requires
            self.wf(),
        ensures
            r == seq_sum(self@),
    {
        let ghost s = self@;
        let mut acc: u64 = 0;
        let mut i: usize = 0;
        proof {
            assert(s.take(0) =~= Seq::<u64>::empty());
            lemma_seq_sum_bound(s);
        }
        while i < self.items.len()
            invariant
                self.wf(),
                s == self@,
                0 <= i <= s.len(),
                acc == seq_sum(s.take(i as int)),
                seq_sum(s) <= s.len() * WINDOW_SAMPLE_MAX,
                0 <= seq_sum(s.take(i as int)) <= i * WINDOW_SAMPLE_MAX,
            decreases s.len() - i,
        {
            proof {
                assert(s.take(i + 1).drop_last() =~= s.take(i as int));
                assert(s.take(i + 1).last() == s[i as int]);
                lemma_seq_sum_bound(s.take(i + 1));
            }
            acc = acc + self.items[i];
            i = i + 1;
        }
        proof {
            assert(s.take(s.len() as int) =~= s);
        }
        acc
    }

    /// Maximum of the samples currently held; 0 when the window is empty.
    pub fn max_val(&self) -> (r: u64)
        requires
            self.wf(),
        ensures
            r == seq_max(self@),
    {
        let ghost s = self@;
        let mut acc: u64 = 0;
        let mut i: usize = 0;
        proof {
            assert(s.take(0) =~= Seq::<u64>::empty());
        }
        while i < self.items.len()
            invariant
                self.wf(),
                s == self@,
                0 <= i <= s.len(),
                acc == seq_max(s.take(i as int)),
            decreases s.len() - i,
        {
            proof {
                assert(s.take(i + 1).drop_last() =~= s.take(i as int));
                assert(s.take(i + 1).last() == s[i as int]);
            }
            let x = self.items[i];
            if x > acc {
                acc = x;
            }
            i = i + 1;
        }
        proof {
            assert(s.take(s.len() as int) =~= s);
        }
        acc
    }

    /// Minimum of the samples currently held; `u64::MAX` when the window is
    /// empty.
    pub fn min_val(&self) -> (r: u64)
        requires
            self.wf(),
        ensures
            r == seq_min(self@),
    {
        let ghost s = self@;
        let mut acc: u64 = u64::MAX;
        let mut i: usize = 0;
        proof {
            assert(s.take(0) =~= Seq::<u64>::empty());
        }
        while i < self.items.len()
            invariant
                self.wf(),
                s == self@,
                0 <= i <= s.len(),
                acc == seq_min(s.take(i as int)),
            decreases s.len() - i,
        {
            proof {
                assert(s.take(i + 1).drop_last() =~= s.take(i as int));
                assert(s.take(i + 1).last() == s[i as int]);
            }
            let x = self.items[i];
            if x < acc {
                acc = x;
            }
            i = i + 1;
        }
        proof {
            assert(s.take(s.len() as int) =~= s);
        }
        acc
    }
}

/// A sequence of bounded samples sums to at most its length times the bound.
pub proof fn lemma_seq_sum_bound(s: Seq<u64>)
    requires
        forall|i: int| 0 <= i < s.len() ==> s[i] <= WINDOW_SAMPLE_MAX,
    ensures
        0 <= seq_sum(s) <= s.len() * WINDOW_SAMPLE_MAX,
    decreases s.len(),
{
    if s.len() > 0 {
        lemma_seq_sum_bound(s.drop_last());
        assert((s.len() - 1) * WINDOW_SAMPLE_MAX + WINDOW_SAMPLE_MAX == s.len()
            * WINDOW_SAMPLE_MAX) by (nonlinear_arith);
    }
}

/// Every sample a well-formed window holds is bounded.
pub proof fn lemma_window_samples_bounded(w: Window)
    requires
        w.wf(),
    ensures
        forall|i: int| 0 <= i < w@.len() ==> w@[i] <= WINDOW_SAMPLE_MAX,
{
}

/// The maximum of a sequence of bounded samples is itself bounded.
pub proof fn lemma_seq_max_le(s: Seq<u64>, b: u64)
    requires
        forall|i: int| 0 <= i < s.len() ==> s[i] <= b,
    ensures
        seq_max(s) <= b,
    decreases s.len(),
{
    if s.len() > 0 {
        lemma_seq_max_le(s.drop_last(), b);
    }
}

/// A window of capacity `c` never holds more than `c` elements, and its
/// contents are always the most recent `c` pushes in insertion order.
pub proof fn law_window_recent(w: Window)
    requires
        w.wf(),
    ensures
        w@.len() <= w.cap(),
        w@ == recent(w.history(), w.cap() as int),
{
}

} // verus!
