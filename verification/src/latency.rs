//! A rolling average of recent callback-latency measurements.
//!
//! The recorder keeps the most recent `LATENCY_RECORD_NUM` samples in a
//! fixed ring, maintains their sum incrementally (each push subtracts the
//! overwritten slot and adds the new sample), and publishes the running
//! average into a shared atomic cell that the control thread reads without
//! locks. Latencies are integer nanoseconds.
use std::sync::atomic::{AtomicU64, Ordering};
use std::sync::Arc;
use vstd::prelude::*;

verus! {

/// How many of the most recent samples the rolling average covers.
pub const LATENCY_RECORD_NUM: usize = 640;

/// The sum of a sequence of samples.
pub open spec fn seq_sum(s: Seq<u64>) -> int
    decreases s.len(),
{
    if s.len() == 0 {
        0
    } else {
        seq_sum(s.drop_last()) + s.last()
    }
}

/// The suffix of the push history that the ring currently holds: the last
/// `LATENCY_RECORD_NUM` samples, or all of them while there are fewer.
pub open spec fn window(h: Seq<u64>) -> Seq<u64> {
    if h.len() <= LATENCY_RECORD_NUM {
        h
    } else {
        h.skip(h.len() - LATENCY_RECORD_NUM as int)
    }
}

/// The arithmetic mean of the held samples, rounded down; zero before the
/// first push (an empty window divides by one, never by zero).
pub open spec fn window_mean(h: Seq<u64>) -> int {
    let w = window(h);
    if w.len() == 0 {
        0
    } else {
        seq_sum(w) / (w.len() as int)
    }
}

/// Fixed-capacity ring of recent latency samples with an O(1) running sum.
pub struct LatencyRecorder {
    records: Vec<u64>,
    head: usize,
    sum: u128,
    full: bool,
    result: Arc<AtomicU64>,
    history: Ghost<Seq<u64>>,
}

impl LatencyRecorder {
    /// Every sample ever pushed, oldest first.
    pub closed spec fn history(&self) -> Seq<u64> {
        self.history@
    }

    /// Where the ring's oldest held sample sits.
    closed spec fn slot_start(&self) -> int {
        if self.full {
            self.head as int
        } else {
            0
        }
    }

    /// The ring's invariant: the ring slots hold exactly the window of the
    /// push history, the running sum is the window's sum, and the head and
    /// fill flag agree with the history's length.
    pub closed spec fn wf(&self) -> bool {
        let h = self.history@;
        let w = window(h);
        &&& self.records@.len() == LATENCY_RECORD_NUM
        &&& self.head < LATENCY_RECORD_NUM
        &&& (self.full <==> h.len() >= LATENCY_RECORD_NUM)
        &&& (if self.full {
            self.head == (h.len() as int) % (LATENCY_RECORD_NUM as int)
        } else {
            self.head == h.len()
        })
        &&& self.sum == seq_sum(w)
        &&& (forall|k: int|
            0 <= k < w.len() ==> #[trigger] w[k] == self.records@[(self.slot_start() + k) % (
            LATENCY_RECORD_NUM as int)])
        &&& (!self.full ==> (forall|k: int|
            h.len() <= k < LATENCY_RECORD_NUM ==> self.records@[k] == 0))
    }

    /// A fresh recorder publishing into the given shared cell.
    pub fn new(result: Arc<AtomicU64>) -> (r: LatencyRecorder)
        ensures
            r.wf(),
            r.history() == Seq::<u64>::empty(),
    {
        let mut records: Vec<u64> = Vec::new();
        while records.len() < LATENCY_RECORD_NUM
            invariant
                records@.len() <= LATENCY_RECORD_NUM,
                forall|k: int| 0 <= k < records@.len() ==> records@[k] == 0,
            decreases LATENCY_RECORD_NUM - records@.len(),
        {
            records.push(0);
        }
        LatencyRecorder {
            records,
            head: 0,
            sum: 0,
            full: false,
            result,
            history: Ghost(Seq::empty()),
        }
    }

    /// The rolling average the recorder currently holds: the mean of the
    /// last `min(count, LATENCY_RECORD_NUM)` pushed samples, rounded down.
    pub fn current_mean(&self) -> (r: u64)
        requires
            self.wf(),
        ensures
            r == window_mean(self.history()),
    {
        let divisor: u128 = if self.full {
            LATENCY_RECORD_NUM as u128
        } else if self.head == 0 {
            1
        } else {
            self.head as u128
        };
        proof {
            lemma_seq_sum_nonneg(window(self.history@));
            lemma_seq_sum_bounded(window(self.history@));
            lemma_mean_fits(seq_sum(window(self.history@)), window(self.history@).len() as int);
        }
        (self.sum / divisor) as u64
    }

    /// Records one latency sample: O(1), never fails, never blocks. The new
    /// sample replaces the oldest held one once the ring is full, and the
    /// refreshed average is published to the shared cell.
    pub fn push(&mut self, record: u64)
        requires
            old(self).wf(),
        ensures
            final(self).wf(),
            final(self).history() == old(self).history().push(record),
    {
        let ghost h = self.history@;
        let ghost w = window(h);
        let place = self.records[self.head];
        proof {
            lemma_seq_sum_nonneg(w);
            lemma_seq_sum_bounded(w);
            if self.full {
                assert((self.slot_start() + 0) % (LATENCY_RECORD_NUM as int) == self.head as int);
                assert(w[0] == self.records@[self.head as int]);
                lemma_seq_sum_skip1(w);
                lemma_seq_sum_nonneg(w.skip(1));
            } else {
                assert(place == 0);
            }
            assert(w.len() * (u64::MAX as int) <= 640 * (u64::MAX as int))
                by (nonlinear_arith)
                requires
                    w.len() <= 640,
            ;
        }
        let ghost pre_head = self.head as int;
        self.sum = self.sum - (place as u128) + (record as u128);
        self.records.set(self.head, record);
        self.head = self.head + 1;
        if self.head == LATENCY_RECORD_NUM {
            self.full = true;
            self.head = 0;
        }
        proof {
            self.history@ = h.push(record);
            let h2 = self.history@;
            let w2 = window(h2);
            let n = LATENCY_RECORD_NUM as int;
            if h.len() < n {
                assert(w2 =~= h2);
                lemma_seq_sum_push(h, record);
                assert forall|k: int| 0 <= k < w2.len() implies #[trigger] w2[k]
                    == self.records@[(self.slot_start() + k) % n] by {
                    lemma_ring_index(0, k, n);
                }
            } else {
                lemma_ring_index(pre_head, 1, n);
                vstd::arithmetic::div_mod::lemma_small_mod(1nat, LATENCY_RECORD_NUM as nat);
                vstd::arithmetic::div_mod::lemma_add_mod_noop(h.len() as int, 1, n);
                assert((h2.len() as int) % n == (h.len() as int + 1) % n);
                assert(self.head == (h2.len() as int) % n);
                assert(w2 =~= w.skip(1).push(record)) by {
                    assert forall|k: int| 0 <= k < n implies w2[k] == w.skip(1).push(record)[k] by {
                        if k < n - 1 {
                            assert(w.skip(1)[k] == w[k + 1]);
                            assert(w[k + 1] == h[h.len() - n + k + 1]);
                            assert(w2[k] == h2[h2.len() - n + k]);
                        }
                    }
                }
                lemma_seq_sum_skip1(w);
                lemma_seq_sum_push(w.skip(1), record);
                assert forall|k: int| 0 <= k < w2.len() implies #[trigger] w2[k]
                    == self.records@[(self.slot_start() + k) % n] by {
                    lemma_ring_index(self.slot_start(), k, n);
                    if k < n - 1 {
                        assert(w2[k] == w[k + 1]);
                        assert(w[k + 1] == old(self).records@[(pre_head + k + 1) % n]);
                        lemma_ring_index(pre_head, k + 1, n);
                        assert((self.slot_start() + k) % n == (pre_head + k + 1) % n);
                        assert((pre_head + k + 1) % n != pre_head);
                    } else {
                        assert((self.slot_start() + k) % n == pre_head);
                        assert(w2[k] == record);
                    }
                }
            }
        }
        let mean = self.current_mean();
        self.result.store(mean, Ordering::SeqCst);
    }

    /// Lock-free read of the most recently published average, callable from
    /// any thread. The cell is written by the audio context, so the value
    /// seen here is the estimate as of the last push that this thread's
    /// memory view has caught up with.
    pub fn read(&self) -> u64 {
        self.result.load(Ordering::SeqCst)
    }
}

/// What `window_mean` averages over is exactly the last
/// `min(count, LATENCY_RECORD_NUM)` pushed samples, in push order: so after
/// any sequence of pushes, the recorder's mean is the arithmetic mean of
/// those samples and no others.
pub proof fn lemma_window_is_recent_suffix(h: Seq<u64>)
    ensures
        window(h).len() == if h.len() <= LATENCY_RECORD_NUM {
            h.len()
        } else {
            LATENCY_RECORD_NUM as nat
        },
        forall|k: int|
            0 <= k < window(h).len() ==> window(h)[k] == h[h.len() - window(h).len() + k],
{
}

/// The sum of samples is never negative.
proof fn lemma_seq_sum_nonneg(s: Seq<u64>)
    ensures
        seq_sum(s) >= 0,
    decreases s.len(),
{
    if s.len() > 0 {
        lemma_seq_sum_nonneg(s.drop_last());
    }
}

/// The sum of samples is at most one maximal sample per slot.
proof fn lemma_seq_sum_bounded(s: Seq<u64>)
    ensures
        seq_sum(s) <= s.len() * (u64::MAX as int),
    decreases s.len(),
{
    if s.len() > 0 {
        lemma_seq_sum_bounded(s.drop_last());
    }
}

/// Appending a sample adds it to the sum.
proof fn lemma_seq_sum_push(s: Seq<u64>, x: u64)
    ensures
        seq_sum(s.push(x)) == seq_sum(s) + x,
{
    assert(s.push(x).drop_last() =~= s);
}

/// Dropping the oldest sample subtracts it from the sum.
proof fn lemma_seq_sum_skip1(s: Seq<u64>)
    requires
        s.len() >= 1,
    ensures
        seq_sum(s.skip(1)) == seq_sum(s) - s[0],
    decreases s.len(),
{
    if s.len() == 1 {
        assert(s.skip(1) =~= Seq::<u64>::empty());
        assert(s.drop_last() =~= Seq::<u64>::empty());
    } else {
        assert(s.skip(1).drop_last() =~= s.drop_last().skip(1));
        lemma_seq_sum_skip1(s.drop_last());
        assert(s.skip(1).last() == s.last());
    }
}

/// A window's mean fits a `u64`.
proof fn lemma_mean_fits(sum: int, len: int)
    requires
        0 <= sum,
        0 <= len,
        sum <= len * (u64::MAX as int),
    ensures
        len >= 1 ==> 0 <= sum / len <= u64::MAX,
{
    if len >= 1 {
        vstd::arithmetic::div_mod::lemma_div_is_ordered(0, sum, len);
        vstd::arithmetic::div_mod::lemma_div_is_ordered(sum, len * (u64::MAX as int), len);
        vstd::arithmetic::div_mod::lemma_div_multiples_vanish(u64::MAX as int, len);
    }
}

/// Stepping `j` slots from `a` around a ring of `n` slots lands on `a + j`,
/// wrapped once past the end.
proof fn lemma_ring_index(a: int, j: int, n: int)
    requires
        0 <= a < n,
        0 <= j <= n,
    ensures
        (a + j) % n == if a + j < n {
            a + j
        } else {
            a + j - n
        },
{
    if a + j < n {
        vstd::arithmetic::div_mod::lemma_small_mod((a + j) as nat, n as nat);
    } else {
        vstd::arithmetic::div_mod::lemma_mod_add_multiples_vanish(a + j - n, n);
        vstd::arithmetic::div_mod::lemma_small_mod((a + j - n) as nat, n as nat);
    }
}

} // verus!
