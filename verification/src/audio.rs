use vstd::prelude::*;

verus! {

/// Most samples an audio parameter is asked to process at once.
pub const AUDIO_CHUNK: u64 = 64;

/// The smaller of `a` and `b`.
pub open spec fn min_int(a: int, b: int) -> int {
    if a < b {
        a
    } else {
        b
    }
}

/// The runs of samples that cover `remaining` samples from `start`: runs of
/// `AUDIO_CHUNK` samples, the last one shorter where `remaining` is not a
/// multiple of it. Each run is its first sample and its length.
pub open spec fn spec_chunks(start: int, remaining: int) -> Seq<(int, int)>
    decreases remaining,
{
    if remaining <= 0 {
        Seq::empty()
    } else {
        let len = min_int(AUDIO_CHUNK as int, remaining);
        seq![(start, len)] + spec_chunks(start + len, remaining - len)
    }
}

/// A run of samples for an audio parameter to process.
#[derive(Debug, Clone, Copy, PartialEq, Eq, Structural)]
pub struct SampleChunk {
    /// The clock of the first sample.
    pub start: u64,
    /// How many samples, 1 to `AUDIO_CHUNK`.
    pub len: u64,
}

/// The samples still to process after a clock advanced: `remaining` of
/// them, from `next_clock` on.
#[derive(Debug, Clone, Copy, PartialEq, Eq, Structural)]
pub struct ChunkSchedule {
    pub next_clock: u64,
    pub remaining: u64,
}

impl ChunkSchedule {
    /// The last sample of the schedule has a clock a `u64` can hold.
    pub open spec fn wf(&self) -> bool {
        self.next_clock + self.remaining <= u64::MAX
    }

    /// The runs the schedule still hands out, in order.
    pub open spec fn chunks(&self) -> Seq<(int, int)> {
        spec_chunks(self.next_clock as int, self.remaining as int)
    }

    /// Hands out the next run, of at most `AUDIO_CHUNK` samples; `None` once
    /// all samples are handed out.
    pub fn next_chunk(&mut self) -> (chunk: Option<SampleChunk>)
        requires
            old(self).wf(),
        ensures
            final(self).wf(),
            old(self).remaining == 0 <==> chunk is None,
            chunk is None ==> *final(self) == *old(self),
            chunk matches Some(c) ==> {
                &&& c.start == old(self).next_clock
                &&& c.len == min_int(AUDIO_CHUNK as int, old(self).remaining as int)
                &&& final(self).next_clock == old(self).next_clock + c.len
                &&& final(self).remaining == old(self).remaining - c.len
                &&& old(self).chunks() == seq![(c.start as int, c.len as int)] + final(self).chunks()
            },
            final(self).next_clock + final(self).remaining == old(self).next_clock + old(self).remaining,
    {
        if self.remaining == 0 {
            return None;
        }
        let len = if self.remaining < AUDIO_CHUNK {
            self.remaining
        } else {
            AUDIO_CHUNK
        };
        let chunk = SampleChunk { start: self.next_clock, len };
        self.remaining = self.remaining - len;
        self.next_clock = self.next_clock + len;
        Some(chunk)
    }
}

/// The sample clock up to which an audio parameter has been processed.
#[derive(Debug, Clone, Copy, PartialEq, Eq, Structural)]
pub struct AudioClock {
    pub last_clock: u64,
}

impl AudioClock {
    /// A clock that has processed no samples.
    pub fn new() -> (clock: AudioClock)
        ensures
            clock.last_clock == 0,
    {
        AudioClock { last_clock: 0 }
    }

    /// Moves the clock to `current_clock` if that is later, and returns the
    /// samples from the old clock up to it, which the parameter must process
    /// before its value at `current_clock` is read; an earlier or equal
    /// clock leaves everything as it was and asks for no samples.
    pub fn advance(&mut self, current_clock: u64) -> (schedule: ChunkSchedule)
        ensures
            schedule.wf(),
            final(self).last_clock >= old(self).last_clock,
            current_clock > old(self).last_clock ==> final(self).last_clock == current_clock
                && schedule == (ChunkSchedule {
                next_clock: old(self).last_clock,
                remaining: (current_clock - old(self).last_clock) as u64,
            }),
            current_clock <= old(self).last_clock ==> *final(self) == *old(self) && schedule.remaining
                == 0,
    {
        if current_clock > self.last_clock {
            let schedule = ChunkSchedule {
                next_clock: self.last_clock,
                remaining: current_clock - self.last_clock,
            };
            self.last_clock = current_clock;
            schedule
        } else {
            ChunkSchedule { next_clock: self.last_clock, remaining: 0 }
        }
    }
}

/// The runs of a schedule, in closed form: run `k` starts `k` full runs
/// after `start` and holds `AUDIO_CHUNK` samples or, for the last, what is
/// left; there are as many runs as it takes, and together they end exactly
/// at `start + remaining`.
pub proof fn lemma_chunks_cover(start: int, remaining: int)
    requires
        remaining >= 0,
    ensures
        spec_chunks(start, remaining).len() == (remaining + AUDIO_CHUNK - 1) / AUDIO_CHUNK as int,
        forall|k: int| 0 <= k < spec_chunks(start, remaining).len() ==> #[trigger] spec_chunks(start, remaining)[k]
            == (start + AUDIO_CHUNK * k, min_int(AUDIO_CHUNK as int, remaining - AUDIO_CHUNK * k)),
        forall|k: int| 0 <= k < spec_chunks(start, remaining).len() ==> 1 <= #[trigger] spec_chunks(start, remaining)[k].1
            <= AUDIO_CHUNK,
    decreases remaining,
{
    if remaining > 0 {
        let len = min_int(AUDIO_CHUNK as int, remaining);
        lemma_chunks_cover(start + len, remaining - len);
        let rest = spec_chunks(start + len, remaining - len);
        let all = spec_chunks(start, remaining);
        assert(all == seq![(start, len)] + rest);
        if remaining < AUDIO_CHUNK {
            assert(remaining - len == 0);
            assert(rest.len() == 0);
        } else {
            assert(len == AUDIO_CHUNK);
        }
        assert forall|k: int| 0 <= k < all.len() implies #[trigger] all[k] == (start + AUDIO_CHUNK * k, min_int(
            AUDIO_CHUNK as int,
            remaining - AUDIO_CHUNK * k,
        )) by {
            if k > 0 {
                assert(all[k] == rest[k - 1]);
                assert(start + len + AUDIO_CHUNK * (k - 1) == start + AUDIO_CHUNK * k);
            }
        }
    }
}

} // verus!
