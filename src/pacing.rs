//! Pacing of the mixing loop against wall-clock time.
//!
//! The deadline of the next chunk is always computed from a fixed anchor and
//! the number of frames written since it, never from the time the previous
//! chunk took: rounding does not pile up, and a slow chunk does not move the
//! schedule.
use vstd::prelude::*;

verus! {

pub const NANOS_PER_SEC: u128 = 1_000_000_000;

/// Deadline, in nanoseconds on the caller's clock, by which `frames` frames at
/// `rate` frames per second have played from `anchor`.
pub open spec fn target_at(anchor: int, frames: int, rate: int) -> int {
    anchor + frames * (NANOS_PER_SEC as int) / rate
}

/// How long to sleep at `now` before `target`: the rest of the time when
/// the target is ahead, nothing when it has passed.
pub open spec fn delay_until(target: int, now: int) -> int {
    if target > now {
        target - now
    } else {
        0
    }
}

/// The pacing anchor: the time at which the current run of chunks started,
/// and how many frames have been written since.
#[derive(Clone, Copy, Debug, PartialEq, Eq, Structural)]
pub struct Pacer {
    pub sample_rate: u32,
    pub anchor_ns: u64,
    pub frames: u64,
}

impl Pacer {
    pub open spec fn wf(&self) -> bool {
        self.sample_rate > 0
    }

    pub open spec fn target(&self) -> int {
        target_at(self.anchor_ns as int, self.frames as int, self.sample_rate as int)
    }

    pub open spec fn delay(&self, now: int) -> int {
        delay_until(self.target(), now)
    }

    /// The pacer once `chunk` more frames are written (the count stops at
    /// the largest `u64`).
    pub open spec fn after_chunk(&self, chunk: int) -> Pacer {
        Pacer {
            sample_rate: self.sample_rate,
            anchor_ns: self.anchor_ns,
            frames: if self.frames + chunk > u64::MAX {
                u64::MAX
            } else {
                (self.frames + chunk) as u64
            },
        }
    }

    pub fn new(sample_rate: u32, now_ns: u64) -> (r: Pacer)
        requires
            sample_rate > 0,
        ensures
            r.wf(),
            r.sample_rate == sample_rate,
            r.anchor_ns == now_ns,
            r.frames == 0,
    {
        Pacer { sample_rate, anchor_ns: now_ns, frames: 0 }
    }

    /// Anchors the schedule at `now_ns`, with nothing written yet.
    pub fn restart(&mut self, now_ns: u64)
        ensures
            final(self).sample_rate == old(self).sample_rate,
            final(self).anchor_ns == now_ns,
            final(self).frames == 0,
    {
        self.anchor_ns = now_ns;
        self.frames = 0;
    }

    /// Records that `chunk` more frames were written.
    pub fn advance(&mut self, chunk: usize)
        ensures
            *final(self) == old(self).after_chunk(chunk as int),
    {
        self.frames = self.frames.saturating_add(chunk as u64);
    }

    /// The deadline of the frames written so far.
    pub fn target_ns(&self) -> (r: u128)
        requires
            self.wf(),
        ensures
            r == self.target(),
    {
        let scaled = self.frames as u128 * NANOS_PER_SEC;
        assert(scaled <= u64::MAX as u128 * NANOS_PER_SEC) by (nonlinear_arith)
            requires
                scaled == self.frames as u128 * NANOS_PER_SEC,
                self.frames <= u64::MAX,
        ;
        let ahead = scaled / (self.sample_rate as u128);
        assert(ahead <= scaled) by (nonlinear_arith)
            requires
                ahead == scaled / (self.sample_rate as u128),
                self.sample_rate > 0,
                scaled >= 0,
        ;
        self.anchor_ns as u128 + ahead
    }

    /// How long to sleep at `now_ns` before the frames written so far are due;
    /// 0 when the loop is late, which does not move the anchor.
    pub fn delay_ns(&self, now_ns: u64) -> (r: u128)
        requires
            self.wf(),
        ensures
            r == self.delay(now_ns as int),
    {
        let target = self.target_ns();
        if target > now_ns as u128 {
            target - now_ns as u128
        } else {
            0
        }
    }
}


/// Time at which the loop is done with the `work.len()`-th chunk since the
/// anchor: chunk `k` takes `work[k]` nanoseconds of mixing and writing from
/// the end of the one before, then the loop sleeps for the pacer's delay.
pub open spec fn chunk_end(anchor: int, rate: int, chunk: int, work: Seq<int>) -> int
    decreases work.len(),
{
    if work.len() == 0 {
        anchor
    } else {
        let ready = chunk_end(anchor, rate, chunk, work.drop_last()) + work.last();
        ready + delay_until(target_at(anchor, work.len() * chunk, rate), ready)
    }
}

/// The deadline of `frames` frames is their duration at `rate`, rounded down
/// to the nanosecond, however many chunks they were written in.
pub proof fn lemma_target_is_exact(anchor: int, frames: int, rate: int)
    requires
        rate > 0,
        frames >= 0,
    ensures
        ({
            let d = target_at(anchor, frames, rate) - anchor;
            &&& d * rate <= frames * (NANOS_PER_SEC as int)
            &&& frames * (NANOS_PER_SEC as int) < (d + 1) * rate
        }),
{
    let x = frames * (NANOS_PER_SEC as int);
    let d = x / rate;
    assert(d * rate <= x && x < (d + 1) * rate) by (nonlinear_arith)
        requires
            rate > 0,
            x >= 0,
            d == x / rate,
    ;
}

/// Pacing keeps no drift: after `n` chunks of `chunk` frames the loop is
/// never done before their deadline, `n * chunk / rate` seconds after the
/// anchor; when no chunk took longer than its own share of time it is done
/// exactly at that deadline; and after slow chunks it is back on that
/// schedule as soon as one chunk is ready before its deadline.
pub proof fn lemma_pacing_without_drift(anchor: int, rate: int, chunk: int, work: Seq<int>)
    requires
        rate > 0,
        chunk > 0,
        forall|k: int| 0 <= k < work.len() ==> #[trigger] work[k] >= 0,
    ensures
        chunk_end(anchor, rate, chunk, work) >= target_at(anchor, work.len() * chunk, rate),
        (forall|k: int|
            0 <= k < work.len() ==> #[trigger] work[k] <= target_at(anchor, (k + 1) * chunk, rate)
                - target_at(anchor, k * chunk, rate)) ==> chunk_end(anchor, rate, chunk, work)
            == target_at(anchor, work.len() * chunk, rate),
        work.len() > 0 && chunk_end(anchor, rate, chunk, work.drop_last()) + work.last()
            <= target_at(anchor, work.len() * chunk, rate) ==> chunk_end(anchor, rate, chunk, work)
            == target_at(anchor, work.len() * chunk, rate),
    decreases work.len(),
{
    if work.len() > 0 {
        let prefix = work.drop_last();
        assert forall|k: int| 0 <= k < prefix.len() implies #[trigger] prefix[k] >= 0 by {
            assert(prefix[k] == work[k]);
        }
        lemma_pacing_without_drift(anchor, rate, chunk, prefix);
        if forall|k: int|
            0 <= k < work.len() ==> #[trigger] work[k] <= target_at(anchor, (k + 1) * chunk, rate)
                - target_at(anchor, k * chunk, rate) {
            assert forall|k: int| 0 <= k < prefix.len() implies #[trigger] prefix[k] <= target_at(
                anchor,
                (k + 1) * chunk,
                rate,
            ) - target_at(anchor, k * chunk, rate) by {
                assert(prefix[k] == work[k]);
            }
            let last = work.len() - 1;
            assert(work[last] <= target_at(anchor, (last + 1) * chunk, rate) - target_at(
                anchor,
                last * chunk,
                rate,
            ));
        }
    }
}

/// The pacer after `n` chunks of `chunk` frames.
pub open spec fn after_chunks(p: Pacer, chunk: int, n: nat) -> Pacer
    decreases n,
{
    if n == 0 {
        p
    } else {
        after_chunks(p, chunk, (n - 1) as nat).after_chunk(chunk)
    }
}

/// Chunks move the deadline and nothing else: after `n` chunks from an
/// anchor, whatever the times at which they were written, the delay the
/// pacer asks for at `now` is the one to `n * chunk` frames past the anchor.
pub proof fn lemma_deadline_after_chunks(p: Pacer, chunk: int, n: nat, now: int)
    requires
        p.wf(),
        p.frames == 0,
        chunk > 0,
        n * chunk <= u64::MAX,
    ensures
        after_chunks(p, chunk, n).anchor_ns == p.anchor_ns,
        after_chunks(p, chunk, n).sample_rate == p.sample_rate,
        after_chunks(p, chunk, n).frames == n * chunk,
        after_chunks(p, chunk, n).delay(now) == delay_until(
            target_at(p.anchor_ns as int, n * chunk, p.sample_rate as int),
            now,
        ),
    decreases n,
{
    if n > 0 {
        assert((n - 1) * chunk == n * chunk - chunk) by (nonlinear_arith);
        assert((n - 1) * chunk >= 0) by (nonlinear_arith)
            requires
                n >= 1,
                chunk > 0,
        ;
        lemma_deadline_after_chunks(p, chunk, (n - 1) as nat, now);
        let q = after_chunks(p, chunk, (n - 1) as nat);
        assert(q.frames + chunk == n * chunk);
        assert(after_chunks(p, chunk, n) == q.after_chunk(chunk));
        assert(after_chunks(p, chunk, n).frames == n * chunk);
    } else {
        assert(n * chunk == 0) by (nonlinear_arith)
            requires
                n == 0,
        ;
    }
}

} // verus!
