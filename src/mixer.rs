//! The mixing loop's decisions: which sounds are playing, which of their
//! frames go into the next chunk, and when a playing sound is finished.
//!
//! The loop itself (channel, sink, sleeping, sample arithmetic) is run by the
//! caller; every decision it takes comes from `MixerLoop`.
use vstd::prelude::*;

use crate::pacing::Pacer;

verus! {

/// One sound that is being played: a shared handle to its frames, its length
/// in frames, and how many of its frames have already been mixed.
pub struct PlaybackInstance<H> {
    pub sound: H,
    pub len: usize,
    pub cursor: usize,
}

/// The frames `start .. start + count` of the instance at index `instance`
/// are added to the frames `0 .. count` of the chunk being mixed.
#[derive(Clone, Copy, Debug, PartialEq, Eq, Structural)]
pub struct Span {
    pub instance: usize,
    pub start: usize,
    pub count: usize,
}

/// What the mixing thread got from the trigger channel.
pub enum Poll<H> {
    /// A sound to start, with its length in frames.
    Sound(H, usize),
    /// Nothing was queued.
    Empty,
    /// Every sending end is gone: no sound will arrive any more.
    Closed,
}

/// What the mixing thread does next.
#[derive(Clone, Copy, Debug, PartialEq, Eq, Structural)]
pub enum Action {
    /// Poll the trigger channel again.
    Poll,
    /// Mix one chunk, write it, and wait for its deadline.
    Mix,
    /// Leave the loop.
    Exit,
}

/// How many frames an instance adds to a chunk of `chunk` frames.
pub open spec fn span_count(len: int, cursor: int, chunk: int) -> int {
    if len - cursor < chunk {
        len - cursor
    } else {
        chunk
    }
}

/// An instance after one more chunk has been mixed from it.
pub open spec fn advanced<H>(p: PlaybackInstance<H>, chunk: int) -> PlaybackInstance<H> {
    PlaybackInstance { sound: p.sound, len: p.len, cursor: (p.cursor + chunk) as usize }
}

/// Whether an instance still has frames left after one more chunk.
pub open spec fn outlives_chunk<H>(p: PlaybackInstance<H>, chunk: int) -> bool {
    p.cursor + chunk < p.len
}

/// The playing set after one chunk: every cursor moves on by the chunk size,
/// and the instances that reached their end are dropped; the others keep
/// their order.
pub open spec fn stepped<H>(s: Seq<PlaybackInstance<H>>, chunk: int) -> Seq<PlaybackInstance<H>>
    decreases s.len(),
{
    if s.len() == 0 {
        s
    } else {
        let rest = stepped(s.drop_first(), chunk);
        if outlives_chunk(s[0], chunk) {
            seq![advanced(s[0], chunk)] + rest
        } else {
            rest
        }
    }
}

/// The playing set after `n` chunks with no new trigger.
pub open spec fn steps<H>(s: Seq<PlaybackInstance<H>>, chunk: int, n: nat) -> Seq<
    PlaybackInstance<H>,
>
    decreases n,
{
    if n == 0 {
        s
    } else {
        stepped(steps(s, chunk, (n - 1) as nat), chunk)
    }
}

/// The span that instance `k` of `s` contributes to a chunk.
pub open spec fn span_of<H>(s: Seq<PlaybackInstance<H>>, k: int, chunk: int) -> Span {
    Span {
        instance: k as usize,
        start: s[k].cursor,
        count: span_count(s[k].len as int, s[k].cursor as int, chunk) as usize,
    }
}

/// The frames that are summed into frame `j` of the chunk mixed from `s`:
/// for each instance in order, its sound and the frame index in it.
pub open spec fn frame_sources<H>(s: Seq<PlaybackInstance<H>>, chunk: int, j: int) -> Seq<(H, int)>
    decreases s.len(),
{
    if s.len() == 0 {
        seq![]
    } else {
        let here = if j < span_count(s[0].len as int, s[0].cursor as int, chunk) {
            seq![(s[0].sound, s[0].cursor + j)]
        } else {
            seq![]
        };
        here + frame_sources(s.drop_first(), chunk, j)
    }
}

/// The frames of the instance `p` that are left to mix.
pub open spec fn remaining<H>(p: PlaybackInstance<H>) -> int {
    p.len - p.cursor
}

pub open spec fn cursors_in_bounds<H>(s: Seq<PlaybackInstance<H>>) -> bool {
    forall|k: int| 0 <= k < s.len() ==> #[trigger] s[k].cursor <= s[k].len
}

/// State of the mixing thread: the sounds playing and the pacing anchor.
///
/// With no sound playing the loop is waiting: it blocks on the trigger
/// channel. With at least one it is mixing: it drains the channel without
/// blocking, then mixes, writes and paces one chunk.
pub struct MixerLoop<H> {
    pub chunk_size: usize,
    pub playing: Vec<PlaybackInstance<H>>,
    pub pacer: Pacer,
}

impl<H> MixerLoop<H> {
    pub open spec fn wf(&self) -> bool {
        &&& self.chunk_size > 0
        &&& self.pacer.wf()
        &&& cursors_in_bounds(self.playing@)
    }

    pub open spec fn waiting(&self) -> bool {
        self.playing@.len() == 0
    }

    /// A loop that plays nothing yet, for a sink running at `sample_rate`
    /// frames per second that takes chunks of `chunk_size` frames.
    pub fn new(sample_rate: u32, chunk_size: usize) -> (r: Self)
        requires
            sample_rate > 0,
            chunk_size > 0,
        ensures
            r.wf(),
            r.waiting(),
            r.chunk_size == chunk_size,
            r.pacer.sample_rate == sample_rate,
            r.pacer.frames == 0,
    {
        MixerLoop { chunk_size, playing: Vec::new(), pacer: Pacer::new(sample_rate, 0) }
    }

    /// Whether no sound is playing, so that the next poll of the trigger
    /// channel is a blocking one.
    pub fn is_waiting(&self) -> (r: bool)
        ensures
            r == self.waiting(),
    {
        self.playing.len() == 0
    }

    /// Takes in what the trigger channel gave at time `now_ns` and decides
    /// the next step.
    ///
    /// A sound starts a new instance at cursor 0; a sound that ends the
    /// waiting state also anchors the pacing at `now_ns`. After a sound the
    /// channel is always polled again, so every queued sound starts before
    /// the next chunk is mixed; an empty or closed channel then gives the
    /// chunk. A closed channel ends the loop only when nothing is playing any
    /// more: sounds already playing are always mixed to their end.
    pub fn receive(&mut self, polled: Poll<H>, now_ns: u64) -> (r: Action)
        requires
            old(self).wf(),
        ensures
            final(self).wf(),
            final(self).chunk_size == old(self).chunk_size,
            final(self).pacer.sample_rate == old(self).pacer.sample_rate,
            match polled {
                Poll::Sound(h, len) => {
                    &&& r == Action::Poll
                    &&& final(self).playing@ == old(self).playing@.push(
                        PlaybackInstance { sound: h, len, cursor: 0 },
                    )
                    &&& if old(self).waiting() {
                        final(self).pacer.anchor_ns == now_ns && final(self).pacer.frames == 0
                    } else {
                        final(self).pacer == old(self).pacer
                    }
                },
                _ => {
                    &&& final(self).playing@ == old(self).playing@
                    &&& final(self).pacer == old(self).pacer
                    &&& r == if !old(self).waiting() {
                        Action::Mix
                    } else if polled is Closed {
                        Action::Exit
                    } else {
                        Action::Poll
                    }
                },
            },
    {
        let was_waiting = self.playing.len() == 0;
        match polled {
            Poll::Sound(sound, len) => {
                if was_waiting {
                    self.pacer.restart(now_ns);
                }
                self.playing.push(PlaybackInstance { sound, len, cursor: 0 });
                proof {
                    assert forall|k: int| 0 <= k < self.playing@.len() implies #[trigger] self.playing@[k].cursor
                        <= self.playing@[k].len by {
                        if k < old(self).playing@.len() {
                            assert(self.playing@[k] == old(self).playing@[k]);
                        }
                    }
                }
                Action::Poll
            },
            Poll::Empty => {
                if was_waiting {
                    Action::Poll
                } else {
                    Action::Mix
                }
            },
            Poll::Closed => {
                if was_waiting {
                    Action::Exit
                } else {
                    Action::Mix
                }
            },
        }
    }

    /// The spans of the next chunk, one per playing instance, in order.
    pub fn plan(&self) -> (r: Vec<Span>)
        requires
            self.wf(),
        ensures
            r@.len() == self.playing@.len(),
            forall|k: int| 0 <= k < r@.len() ==> #[trigger] r@[k] == span_of(self.playing@, k, self.chunk_size as int),
    {
        let mut spans: Vec<Span> = Vec::new();
        let n = self.playing.len();
        let mut k: usize = 0;
        while k < n
            invariant
                n == self.playing@.len(),
                k <= n,
                self.wf(),
                spans@.len() == k,
                forall|i: int| 0 <= i < k ==> #[trigger] spans@[i] == span_of(self.playing@, i, self.chunk_size as int),
            decreases n - k,
        {
            let p = &self.playing[k];
            assert(p.cursor <= p.len);
            let left = p.len - p.cursor;
            let count = if left < self.chunk_size {
                left
            } else {
                self.chunk_size
            };
            spans.push(Span { instance: k, start: p.cursor, count });
            k += 1;
        }
        spans
    }

    /// Ends a chunk once it is mixed and written: moves every cursor on by
    /// the chunk size, drops the instances that reached their end, advances
    /// the pacing anchor by one chunk, and returns how long to sleep, in
    /// nanoseconds, when the loop is at `now_ns`.
    pub fn finish_chunk(&mut self, now_ns: u64) -> (r: u128)
        requires
            old(self).wf(),
        ensures
            final(self).wf(),
            final(self).chunk_size == old(self).chunk_size,
            final(self).playing@ == stepped(old(self).playing@, old(self).chunk_size as int),
            final(self).pacer == old(self).pacer.after_chunk(old(self).chunk_size as int),
            r == final(self).pacer.delay(now_ns as int),
    {
        let chunk = self.chunk_size;
        let ghost before = self.playing@;
        let n = self.playing.len();
        let mut i: usize = n;
        while i > 0
            invariant
                n == before.len(),
                i <= n,
                chunk == self.chunk_size,
                chunk > 0,
                self.pacer == old(self).pacer,
                self.pacer.wf(),
                cursors_in_bounds(before),
                self.playing@ == before.subrange(0, i as int) + stepped(
                    before.subrange(i as int, n as int),
                    chunk as int,
                ),
                cursors_in_bounds(self.playing@),
            decreases i,
        {
            let ghost tail = stepped(before.subrange(i as int, n as int), chunk as int);
            assert(self.playing@[i - 1] == before[i - 1]);
            let p = self.playing.remove(i - 1);
            proof {
                assert(before.subrange(i - 1, n as int).drop_first() =~= before.subrange(
                    i as int,
                    n as int,
                ));
                assert(before.subrange(i - 1, n as int)[0] == before[i - 1]);
                assert(self.playing@ =~= before.subrange(0, i - 1) + tail);
                assert(p.cursor <= p.len);
            }
            if p.len - p.cursor > chunk {
                let q = PlaybackInstance { sound: p.sound, len: p.len, cursor: p.cursor + chunk };
                self.playing.insert(i - 1, q);
                proof {
                    assert(self.playing@ =~= before.subrange(0, i - 1) + (seq![q] + tail));
                }
            }
            proof {
                assert forall|k: int| 0 <= k < self.playing@.len() implies #[trigger] self.playing@[k].cursor
                    <= self.playing@[k].len by {
                    lemma_stepped_in_bounds(before.subrange(i - 1, n as int), chunk as int);
                    if k >= i - 1 {
                        let t = stepped(before.subrange(i - 1, n as int), chunk as int);
                        assert(self.playing@[k] == t[k - (i - 1)]);
                    } else {
                        assert(self.playing@[k] == before[k]);
                    }
                }
            }
            i -= 1;
        }
        assert(before.subrange(0, n as int) =~= before);
        assert(self.playing@ =~= stepped(before, chunk as int));
        self.pacer.advance(chunk);
        self.pacer.delay_ns(now_ns)
    }
}

/// Stepping keeps every cursor within its sound.
pub proof fn lemma_stepped_in_bounds<H>(s: Seq<PlaybackInstance<H>>, chunk: int)
    requires
        cursors_in_bounds(s),
        chunk > 0,
    ensures
        cursors_in_bounds(stepped(s, chunk)),
        stepped(s, chunk).len() <= s.len(),
    decreases s.len(),
{
    if s.len() > 0 {
        let rest = s.drop_first();
        assert forall|k: int| 0 <= k < rest.len() implies #[trigger] rest[k].cursor <= rest[k].len by {
            assert(rest[k] == s[k + 1]);
        }
        lemma_stepped_in_bounds(rest, chunk);
        let t = stepped(s, chunk);
        let r = stepped(rest, chunk);
        if outlives_chunk(s[0], chunk) {
            assert forall|k: int| 0 <= k < t.len() implies #[trigger] t[k].cursor <= t[k].len by {
                if k > 0 {
                    assert(t[k] == r[k - 1]);
                }
            }
        }
    }
}


/// An instance moved on by `d` frames.
pub open spec fn moved<H>(p: PlaybackInstance<H>, d: int) -> PlaybackInstance<H> {
    PlaybackInstance { sound: p.sound, len: p.len, cursor: (p.cursor + d) as usize }
}

/// The playing set once `n` chunks are mixed from `s` with no new trigger:
/// each instance moved on by `n` chunks, kept while it still has frames left.
pub open spec fn mixed_for<H>(s: Seq<PlaybackInstance<H>>, chunk: int, n: nat) -> Seq<
    PlaybackInstance<H>,
>
    decreases s.len(),
{
    if s.len() == 0 {
        s
    } else {
        let rest = mixed_for(s.drop_first(), chunk, n);
        if n == 0 || s[0].cursor + n * chunk < s[0].len {
            seq![moved(s[0], n * chunk)] + rest
        } else {
            rest
        }
    }
}

/// Frame `i` from the cursor of each instance of `s` that has such a frame,
/// in the order of `s`.
pub open spec fn sources_at<H>(s: Seq<PlaybackInstance<H>>, i: int) -> Seq<(H, int)>
    decreases s.len(),
{
    if s.len() == 0 {
        seq![]
    } else {
        let here = if s[0].cursor + i < s[0].len {
            seq![(s[0].sound, s[0].cursor + i)]
        } else {
            seq![]
        };
        here + sources_at(s.drop_first(), i)
    }
}

proof fn lemma_mixed_for_zero<H>(s: Seq<PlaybackInstance<H>>, chunk: int)
    ensures
        mixed_for(s, chunk, 0) == s,
    decreases s.len(),
{
    if s.len() > 0 {
        lemma_mixed_for_zero(s.drop_first(), chunk);
        assert(moved(s[0], 0 * chunk) == s[0]);
        assert(seq![s[0]] + s.drop_first() =~= s);
    }
}

/// The offsets of consecutive chunks: `n` chunks are no offset below zero,
/// and `n + 1` chunks lie one chunk past `n`.
proof fn lemma_chunk_offsets(n: nat, chunk: int)
    requires
        chunk > 0,
    ensures
        n * chunk >= 0,
        (n + 1) * chunk == n * chunk + chunk,
        n > 0 ==> n * chunk >= chunk,
{
    assert(n * chunk >= 0) by (nonlinear_arith)
        requires
            chunk > 0,
    ;
    assert((n + 1) * chunk == n * chunk + chunk) by (nonlinear_arith);
    assert(n > 0 ==> n * chunk >= chunk) by (nonlinear_arith)
        requires
            chunk > 0,
    ;
}

#[verifier::spinoff_prover]
proof fn lemma_mixed_for_next<H>(s: Seq<PlaybackInstance<H>>, chunk: int, n: nat)
    requires
        chunk > 0,
        cursors_in_bounds(s),
    ensures
        stepped(mixed_for(s, chunk, n), chunk) == mixed_for(s, chunk, n + 1),
    decreases s.len(),
{
    if s.len() == 0 {
        assert(mixed_for(s, chunk, n) == s);
        assert(mixed_for(s, chunk, n + 1) == s);
    } else {
        let rest = s.drop_first();
        assert forall|k: int| 0 <= k < rest.len() implies #[trigger] rest[k].cursor <= rest[k].len by {
            assert(rest[k] == s[k + 1]);
        }
        lemma_mixed_for_next(rest, chunk, n);
        lemma_chunk_offsets(n, chunk);
        let p = s[0];
        let d = n * chunk;
        let d1 = (n + 1) * chunk;
        assert(d1 == d + chunk);
        let tail = mixed_for(rest, chunk, n);
        let tail1 = mixed_for(rest, chunk, n + 1);
        assert(stepped(tail, chunk) == tail1);
        let m = mixed_for(s, chunk, n);
        let m1 = mixed_for(s, chunk, n + 1);
        if n == 0 || p.cursor + d < p.len {
            let q = moved(p, d);
            assert(p.cursor + d <= p.len) by {
                assert(p.cursor <= p.len);
            }
            assert(q.cursor == p.cursor + d);
            assert(m == seq![q] + tail);
            assert(m.len() > 0);
            assert(m[0] == q);
            assert(m.drop_first() =~= tail);
            if p.cursor + d1 < p.len {
                assert(outlives_chunk(q, chunk));
                assert(advanced(q, chunk) == moved(p, d1));
                assert(stepped(m, chunk) == seq![advanced(q, chunk)] + stepped(tail, chunk));
                assert(m1 == seq![moved(p, d1)] + tail1);
            } else {
                assert(!outlives_chunk(q, chunk));
                assert(stepped(m, chunk) == stepped(tail, chunk));
                assert(m1 == tail1);
            }
        } else {
            assert(p.cursor + d1 >= p.len);
            assert(m == tail);
            assert(m1 == tail1);
        }
    }
}

/// With no new trigger, `n` chunks take the playing set `s` to
/// `mixed_for(s, chunk, n)`.
pub proof fn lemma_steps_mixed_for<H>(s: Seq<PlaybackInstance<H>>, chunk: int, n: nat)
    requires
        chunk > 0,
        cursors_in_bounds(s),
    ensures
        steps(s, chunk, n) == mixed_for(s, chunk, n),
    decreases n,
{
    if n == 0 {
        lemma_mixed_for_zero(s, chunk);
    } else {
        lemma_steps_mixed_for(s, chunk, (n - 1) as nat);
        lemma_mixed_for_next(s, chunk, (n - 1) as nat);
    }
}

proof fn lemma_frame_sources_mixed_for<H>(s: Seq<PlaybackInstance<H>>, chunk: int, n: nat, j: int)
    requires
        chunk > 0,
        0 <= j < chunk,
        cursors_in_bounds(s),
    ensures
        frame_sources(mixed_for(s, chunk, n), chunk, j) == sources_at(s, n * chunk + j),
    decreases s.len(),
{
    if s.len() > 0 {
        let rest = s.drop_first();
        assert forall|k: int| 0 <= k < rest.len() implies #[trigger] rest[k].cursor <= rest[k].len by {
            assert(rest[k] == s[k + 1]);
        }
        lemma_frame_sources_mixed_for(rest, chunk, n, j);
        assert(n * chunk >= 0) by (nonlinear_arith)
            requires
                chunk > 0,
        ;
        let p = s[0];
        assert(p.cursor <= p.len);
        let m = mixed_for(s, chunk, n);
        if n == 0 || p.cursor + n * chunk < p.len {
            assert(m[0] == moved(p, n * chunk));
            assert(m.drop_first() =~= mixed_for(rest, chunk, n));
        }
    }
}

/// Mixing without new triggers: frame `j` of the `n`-th next chunk sums, for
/// each instance playing now, its frame `cursor + n * chunk + j` when it has
/// one; with no such frame the output frame is silence.
pub proof fn lemma_mixed_frame<H>(s: Seq<PlaybackInstance<H>>, chunk: int, n: nat, j: int)
    requires
        chunk > 0,
        0 <= j < chunk,
        cursors_in_bounds(s),
    ensures
        frame_sources(steps(s, chunk, n), chunk, j) == sources_at(s, n * chunk + j),
{
    lemma_steps_mixed_for(s, chunk, n);
    lemma_frame_sources_mixed_for(s, chunk, n, j);
}

/// Two sounds started in the same chunk: output frame `i` (frame `j` of the
/// `n`-th chunk) is frame `i` of `a` plus frame `i` of `b` while both last,
/// frame `i` of the longer one alone past the end of the shorter, and
/// silence past the end of both.
pub proof fn lemma_two_sounds_mix<H>(
    a: PlaybackInstance<H>,
    b: PlaybackInstance<H>,
    chunk: int,
    n: nat,
    j: int,
)
    requires
        a.cursor == 0,
        b.cursor == 0,
        chunk > 0,
        0 <= j < chunk,
    ensures
        ({
            let i = n * chunk + j;
            frame_sources(steps(seq![a, b], chunk, n), chunk, j) == (if i < a.len {
                seq![(a.sound, i)]
            } else {
                seq![]
            }) + (if i < b.len {
                seq![(b.sound, i)]
            } else {
                seq![]
            })
        }),
{
    let s = seq![a, b];
    assert(cursors_in_bounds(s)) by {
        assert forall|k: int| 0 <= k < s.len() implies #[trigger] s[k].cursor <= s[k].len by {
            if k == 0 {
                assert(s[k] == a);
            } else {
                assert(s[k] == b);
            }
        }
    }
    lemma_mixed_frame(s, chunk, n, j);
    let i = n * chunk + j;
    assert(s.drop_first() =~= seq![b]);
    assert(seq![b].drop_first() =~= Seq::<PlaybackInstance<H>>::empty());
    assert(sources_at(seq![b], i) =~= (if i < b.len {
        seq![(b.sound, i)]
    } else {
        seq![]
    }) + sources_at(Seq::<PlaybackInstance<H>>::empty(), i));
}

/// What is playing is mixed to its end, and no further: after `n > 0` chunks
/// an instance is still there, moved on by `n` chunks, exactly when more
/// than `n` chunks of it were left; once every instance had at most `n`
/// chunks left, nothing plays any more.
pub proof fn lemma_playing_drains<H>(s: Seq<PlaybackInstance<H>>, chunk: int, n: nat)
    requires
        chunk > 0,
        n > 0,
        cursors_in_bounds(s),
    ensures
        steps(s, chunk, n) == mixed_for(s, chunk, n),
        (forall|k: int| 0 <= k < s.len() ==> #[trigger] remaining(s[k]) <= n * chunk) ==> steps(
            s,
            chunk,
            n,
        ).len() == 0,
{
    lemma_steps_mixed_for(s, chunk, n);
    if forall|k: int| 0 <= k < s.len() ==> #[trigger] remaining(s[k]) <= n * chunk {
        lemma_mixed_for_empty(s, chunk, n);
    }
}

proof fn lemma_mixed_for_empty<H>(s: Seq<PlaybackInstance<H>>, chunk: int, n: nat)
    requires
        n > 0,
        forall|k: int| 0 <= k < s.len() ==> #[trigger] remaining(s[k]) <= n * chunk,
    ensures
        mixed_for(s, chunk, n).len() == 0,
    decreases s.len(),
{
    if s.len() > 0 {
        let rest = s.drop_first();
        assert forall|k: int| 0 <= k < rest.len() implies #[trigger] remaining(rest[k]) <= n * chunk by {
            assert(rest[k] == s[k + 1]);
        }
        assert(remaining(s[0]) <= n * chunk);
        lemma_mixed_for_empty(rest, chunk, n);
    }
}

proof fn lemma_stepped_append<H>(s: Seq<PlaybackInstance<H>>, t: Seq<PlaybackInstance<H>>, chunk: int)
    ensures
        stepped(s + t, chunk) == stepped(s, chunk) + stepped(t, chunk),
    decreases s.len(),
{
    if s.len() == 0 {
        assert(s + t =~= t);
        assert(stepped(s, chunk) + stepped(t, chunk) =~= stepped(t, chunk));
    } else {
        assert((s + t).drop_first() =~= s.drop_first() + t);
        assert((s + t)[0] == s[0]);
        lemma_stepped_append(s.drop_first(), t, chunk);
        let rest = stepped(s.drop_first(), chunk);
        assert(seq![advanced(s[0], chunk)] + (rest + stepped(t, chunk)) =~= (seq![
            advanced(s[0], chunk),
        ] + rest) + stepped(t, chunk));
    }
}

proof fn lemma_frame_sources_append<H>(
    s: Seq<PlaybackInstance<H>>,
    t: Seq<PlaybackInstance<H>>,
    chunk: int,
    j: int,
)
    ensures
        frame_sources(s + t, chunk, j) == frame_sources(s, chunk, j) + frame_sources(t, chunk, j),
    decreases s.len(),
{
    if s.len() == 0 {
        assert(s + t =~= t);
        assert(frame_sources(s, chunk, j) + frame_sources(t, chunk, j) =~= frame_sources(
            t,
            chunk,
            j,
        ));
    } else {
        assert((s + t).drop_first() =~= s.drop_first() + t);
        assert((s + t)[0] == s[0]);
        lemma_frame_sources_append(s.drop_first(), t, chunk, j);
        let here = if j < span_count(s[0].len as int, s[0].cursor as int, chunk) {
            seq![(s[0].sound, s[0].cursor + j)]
        } else {
            seq![]
        };
        assert(here + (frame_sources(s.drop_first(), chunk, j) + frame_sources(t, chunk, j))
            =~= (here + frame_sources(s.drop_first(), chunk, j)) + frame_sources(t, chunk, j));
    }
}

/// A sound of no frames that joins the playing set adds nothing to the chunk
/// and is gone after it, leaving the other instances as they would be
/// without it.
pub proof fn lemma_empty_sound_leaves_at_once<H>(
    s: Seq<PlaybackInstance<H>>,
    p: PlaybackInstance<H>,
    chunk: int,
    j: int,
)
    requires
        p.len == 0,
        chunk > 0,
        0 <= j < chunk,
    ensures
        stepped(s.push(p), chunk) == stepped(s, chunk),
        frame_sources(s.push(p), chunk, j) == frame_sources(s, chunk, j),
{
    let one = seq![p];
    assert(s.push(p) =~= s + one);
    lemma_stepped_append(s, one, chunk);
    lemma_frame_sources_append(s, one, chunk, j);
    assert(one.drop_first() =~= Seq::<PlaybackInstance<H>>::empty());
    assert(one[0] == p);
    assert(stepped(Seq::<PlaybackInstance<H>>::empty(), chunk) =~= Seq::<PlaybackInstance<H>>::empty());
    assert(frame_sources(Seq::<PlaybackInstance<H>>::empty(), chunk, j) =~= Seq::<(H, int)>::empty());
    assert(stepped(one, chunk) =~= Seq::<PlaybackInstance<H>>::empty());
    assert(stepped(s, chunk) + stepped(one, chunk) =~= stepped(s, chunk));
    assert(frame_sources(one, chunk, j) =~= Seq::<(H, int)>::empty());
    assert(frame_sources(s, chunk, j) + frame_sources(one, chunk, j) =~= frame_sources(s, chunk, j));
}

} // verus!
