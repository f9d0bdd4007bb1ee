use vstd::prelude::*;

verus! {

/// A sequence of `n` zero samples (the bit pattern of +0.0).
pub open spec fn zeros(n: nat) -> Seq<u32> {
    Seq::new(n, |i: int| 0u32)
}

/// The rolling analysis window after new samples arrive: the combined
/// sequence is trimmed from the front to exactly `size` when it is longer,
/// and right-padded with zero samples when it is shorter.
pub open spec fn normalized(s: Seq<u32>, size: nat) -> Seq<u32> {
    if s.len() >= size {
        s.skip(s.len() - size)
    } else {
        s + zeros((size - s.len()) as nat)
    }
}

/// Law: the zero-padding invariant.  Whatever arrives — fewer samples than
/// the analysis window or more — the rolling window, and with it the
/// magnitude vector derived from it, always has exactly the fixed window
/// size.
pub proof fn lemma_window_keeps_size(s: Seq<u32>, size: nat)
    ensures
        normalized(s, size).len() == size,
{
}

/// The spectrum engine's state: a fixed-capacity rolling window of audio
/// samples and the per-bin decay state persisted across frames.
///
/// Samples and magnitudes are IEEE-754 single-precision values carried by
/// their bit patterns (`u32`).  The engine owns the window discipline and
/// the peak-decay selection; the FFT, the decibel conversion and the two
/// floating-point operations the filter needs per bin (the comparison with
/// the previous output and the product `previous * decay`) are computed by
/// the unverified shell and handed in per call.
pub struct AudioProcessor {
    /// The rolling sample window; always exactly `buffer_size` long.
    pub buffer: Vec<u32>,
    /// The fixed analysis window size, `ceil(sample_rate / frame_rate)`.
    pub buffer_size: usize,
    /// Previous per-bin output of the decay filter; one entry per window
    /// slot, so the magnitude vector always has the window's length.
    pub decay_state: Vec<u32>,
}

impl AudioProcessor {
    /// The engine's invariant: window and decay state stay at the fixed size.
    pub open spec fn wf(self) -> bool {
        &&& self.buffer@.len() == self.buffer_size
        &&& self.decay_state@.len() == self.buffer_size
    }

    /// A fresh engine: a zero-filled window and a zeroed decay state.
    pub fn new(buffer_size: usize) -> (r: Self)
        ensures
            r.wf(),
            r.buffer_size == buffer_size,
            r.buffer@ =~= zeros(buffer_size as nat),
            r.decay_state@ =~= zeros(buffer_size as nat),
    {
        let mut buffer: Vec<u32> = Vec::new();
        let mut decay_state: Vec<u32> = Vec::new();
        let mut i: usize = 0;
        while i < buffer_size
            invariant
                0 <= i <= buffer_size,
                buffer@ =~= zeros(i as nat),
                decay_state@ =~= zeros(i as nat),
            decreases buffer_size - i,
        {
            buffer.push(0);
            decay_state.push(0);
            i = i + 1;
        }
        AudioProcessor { buffer, buffer_size, decay_state }
    }

    /// The fixed window size for a sample rate and a target frame rate:
    /// `ceil(sample_rate / frame_rate)` samples per analysis window.
    pub fn window_size(sample_rate: usize, frame_rate: usize) -> (r: usize)
        requires
            frame_rate > 0,
            sample_rate + frame_rate - 1 <= usize::MAX,
        ensures
            r == (sample_rate + frame_rate - 1) / frame_rate as int,
            r * frame_rate >= sample_rate,
    {
        let r = (sample_rate + (frame_rate - 1)) / frame_rate;
        proof {
            let fr = frame_rate as int;
            let sr = sample_rate as int;
            assert(r == (sr + fr - 1) / fr);
            assert(r * fr >= sr) by (nonlinear_arith)
                requires
                    fr > 0,
                    sr >= 0,
                    r == (sr + fr - 1) / fr,
            {}
        }
        r
    }

    /// Appends freshly captured samples to the rolling window, then trims
    /// the window from the front (oldest samples dropped) to the fixed
    /// size, or right-pads it with zero samples if it is still short.
    pub fn add_samples(&mut self, samples: &Vec<u32>)
        ensures
            final(self).buffer@ =~= normalized(old(self).buffer@ + samples@, old(self).buffer_size as nat),
            final(self).buffer_size == old(self).buffer_size,
            final(self).decay_state == old(self).decay_state,
            final(self).buffer@.len() == old(self).buffer_size,
    {
        let ghost combined: Seq<u32> = self.buffer@ + samples@;
        let mut i: usize = 0;
        while i < samples.len()
            invariant
                0 <= i <= samples@.len(),
                self.buffer@ =~= old(self).buffer@ + samples@.take(i as int),
                self.buffer_size == old(self).buffer_size,
                self.decay_state == old(self).decay_state,
            decreases samples@.len() - i,
        {
            let s = samples[i];
            self.buffer.push(s);
            proof {
                assert(samples@.take(i + 1) =~= samples@.take(i as int).push(samples@[i as int]));
            }
            i = i + 1;
        }
        proof {
            assert(samples@.take(samples@.len() as int) =~= samples@);
            assert(self.buffer@ =~= combined);
        }
        let total = self.buffer.len();
        if total > self.buffer_size {
            let start = total - self.buffer_size;
            let mut trimmed: Vec<u32> = Vec::new();
            let mut j: usize = start;
            while j < total
                invariant
                    start <= j <= total,
                    total == combined.len(),
                    start == combined.len() - self.buffer_size,
                    self.buffer@ == combined,
                    trimmed@ =~= combined.subrange(start as int, j as int),
                decreases total - j,
            {
                let s = self.buffer[j];
                trimmed.push(s);
                proof {
                    assert(combined.subrange(start as int, j + 1)
                        =~= combined.subrange(start as int, j as int).push(combined[j as int]));
                }
                j = j + 1;
            }
            self.buffer = trimmed;
            proof {
                assert(combined.subrange(start as int, total as int)
                    =~= combined.skip(combined.len() - self.buffer_size));
            }
        } else {
            while self.buffer.len() < self.buffer_size
                invariant
                    self.buffer_size == old(self).buffer_size,
                    combined.len() <= self.buffer@.len() <= self.buffer_size,
                    self.buffer@ =~= combined + zeros((self.buffer@.len() - combined.len()) as nat),
                    self.decay_state == old(self).decay_state,
                decreases self.buffer_size - self.buffer@.len(),
            {
                self.buffer.push(0);
                proof {
                    assert(self.buffer@ =~= combined + zeros((self.buffer@.len() - combined.len()) as nat));
                }
            }
        }
    }

    /// One frame of the peak-decay filter, the selection the display reads.
    ///
    /// For each bin the caller evaluates, in floating point, whether the
    /// new raw magnitude exceeds the previous output (`louder`) and the
    /// geometrically released value `previous * decay` (`released`); this
    /// function performs the selection — attack is instantaneous, release
    /// falls back to the released value — and persists the result as the
    /// next frame's decay state.
    pub fn select_magnitudes(&mut self, raw: &Vec<u32>, released: &Vec<u32>, louder: &Vec<bool>) -> (out: Vec<u32>)
        requires
            raw@.len() == old(self).decay_state@.len(),
            released@.len() == old(self).decay_state@.len(),
            louder@.len() == old(self).decay_state@.len(),
        ensures
            out@.len() == old(self).decay_state@.len(),
            forall|i: int| 0 <= i < out@.len() ==>
                out@[i] == (if louder@[i] { raw@[i] } else { released@[i] }),
            final(self).decay_state@ == out@,
            final(self).buffer == old(self).buffer,
            final(self).buffer_size == old(self).buffer_size,
    {
        let n = raw.len();
        let mut out: Vec<u32> = Vec::new();
        let mut i: usize = 0;
        while i < n
            invariant
                0 <= i <= n,
                n == raw@.len(),
                released@.len() == n,
                louder@.len() == n,
                out@.len() == i,
                forall|k: int| 0 <= k < i ==>
                    out@[k] == (if louder@[k] { raw@[k] } else { released@[k] }),
            decreases n - i,
        {
            if louder[i] {
                out.push(raw[i]);
            } else {
                out.push(released[i]);
            }
            i = i + 1;
        }
        let mut state: Vec<u32> = Vec::new();
        let mut j: usize = 0;
        while j < out.len()
            invariant
                0 <= j <= out@.len(),
                state@ =~= out@.take(j as int),
            decreases out@.len() - j,
        {
            let v = out[j];
            state.push(v);
            proof {
                assert(out@.take(j + 1) =~= out@.take(j as int).push(out@[j as int]));
            }
            j = j + 1;
        }
        proof {
            assert(out@.take(out@.len() as int) =~= out@);
        }
        self.decay_state = state;
        out
    }
}

} // verus!
