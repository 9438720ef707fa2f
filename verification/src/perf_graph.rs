//! The performance overlay's ring buffer: a fixed history of recent frame
//! times in microseconds, a rolling average over the whole history, and the
//! samples in the order the overlay draws them (newest first, wrapping
//! around the ring).

use vstd::prelude::*;

verus! {

/// How many frame times the ring holds.
pub const HISTORY_COUNT: usize = 100;

pub struct PerfGraph {
    pub history_count: usize,
    pub values: Vec<u32>,
    pub head: usize,
}

/// The sum of a sequence of frame times.
pub open spec fn sum_of(s: Seq<u32>) -> int
    decreases s.len(),
{
    if s.len() == 0 {
        0
    } else {
        sum_of(s.drop_last()) + s.last()
    }
}

impl PerfGraph {
    /// The ring always holds exactly `HISTORY_COUNT` samples and the head
    /// stays in range.
    pub open spec fn wf(self) -> bool {
        &&& self.history_count == HISTORY_COUNT
        &&& self.values@.len() == self.history_count
        &&& self.head < self.history_count
    }

    /// A ring of `HISTORY_COUNT` zero samples with the head at 0.
    pub fn new() -> (r: PerfGraph)
        ensures
            r.wf(),
            r.head == 0,
            forall|i: int| 0 <= i < HISTORY_COUNT ==> r.values@[i] == 0u32,
    {
        let mut values: Vec<u32> = Vec::new();
        let mut i: usize = 0;
        while i < HISTORY_COUNT
            invariant
                i <= HISTORY_COUNT,
                values@.len() == i,
                forall|k: int| 0 <= k < i ==> values@[k] == 0u32,
            decreases HISTORY_COUNT - i,
        {
            values.push(0);
            i += 1;
        }
        PerfGraph { history_count: HISTORY_COUNT, values, head: 0 }
    }

    /// Records one frame time: advances the head one slot around the ring
    /// and overwrites the sample there.
    pub fn update(&mut self, frame_time: u32)
        requires
            old(self).wf(),
        ensures
            final(self).wf(),
            final(self).head == (old(self).head + 1) % (HISTORY_COUNT as int),
            final(self).values@ == old(self).values@.update(
                final(self).head as int,
                frame_time,
            ),
    {
        self.head = (self.head + 1) % self.history_count;
        self.values[self.head] = frame_time;
    }

    /// The rolling average frame time: the sum of the whole history divided
    /// by its length (integer division).
    pub fn get_average(&self) -> (r: u32)
        requires
            self.wf(),
        ensures
            r == sum_of(self.values@) / (HISTORY_COUNT as int),
    {
        let mut sum: u64 = 0;
        let mut i: usize = 0;
        while i < self.values.len()
            invariant
                self.wf(),
                i <= self.values@.len(),
                sum == sum_of(self.values@.take(i as int)),
                sum <= i * 0xffff_ffffu64,
            decreases self.values@.len() - i,
        {
            proof {
                assert(self.values@.take(i + 1).drop_last() =~= self.values@.take(i as int));
                assert(self.values@.take(i + 1).last() == self.values@[i as int]);
            }
            sum = sum + (self.values[i] as u64);
            i += 1;
        }
        proof {
            assert(self.values@.take(self.values@.len() as int) =~= self.values@);
        }
        (sum / (HISTORY_COUNT as u64)) as u32
    }

    /// The samples in the order the overlay draws them: starting at the
    /// head (the most recent sample) and wrapping once around the ring.
    pub fn samples_in_order(&self) -> (r: Vec<u32>)
        requires
            self.wf(),
        ensures
            r@.len() == HISTORY_COUNT,
            forall|i: int|
                0 <= i < HISTORY_COUNT ==> r@[i] == self.values@[
                    (self.head + i) % (HISTORY_COUNT as int)
                ],
    {
        let mut r: Vec<u32> = Vec::new();
        let mut i: usize = 0;
        while i < self.history_count
            invariant
                self.wf(),
                i <= HISTORY_COUNT,
                r@.len() == i,
                forall|k: int|
                    0 <= k < i ==> r@[k] == self.values@[
                        (self.head + k) % (HISTORY_COUNT as int)
                    ],
            decreases HISTORY_COUNT - i,
        {
            r.push(self.values[(self.head + i) % self.history_count]);
            i += 1;
        }
        r
    }
}

} // verus!
