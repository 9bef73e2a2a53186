//! The waveform generator: a finite run of sample positions that cannot be restarted.

use vstd::prelude::*;

verus! {

/// Samples per second of every generator.
pub const SAMPLE_RATE: u32 = 44100;

/// How many samples a tone of `duration_ms` milliseconds has at `rate` samples per second.
pub open spec fn sample_count(rate: nat, duration_ms: nat) -> nat {
    rate * duration_ms / 1000
}

/// A sine tone of fixed frequency and length. It hands out the positions
/// `0, 1, 2, ..` of its samples; sample `i` of the tone is
/// `sin(2π · frequency · i / sample_rate)`, which the caller evaluates.
pub struct SineWave {
    freq: i64,
    num_samples: u64,
    sample_rate: u32,
    current_sample: u64,
}

impl SineWave {
    /// The frequency in millionths of a hertz.
    pub closed spec fn frequency(&self) -> int {
        self.freq as int
    }

    /// The number of samples of the whole tone.
    pub closed spec fn total(&self) -> nat {
        self.num_samples as nat
    }

    /// The number of samples handed out so far.
    pub closed spec fn position(&self) -> nat {
        self.current_sample as nat
    }

    /// Samples per second.
    pub closed spec fn rate(&self) -> nat {
        self.sample_rate as nat
    }

    /// The generator after one more request, and what that request yields.
    pub closed spec fn step(self) -> (SineWave, Option<u64>) {
        if self.current_sample < self.num_samples {
            (
                SineWave { current_sample: (self.current_sample + 1) as u64, ..self },
                Some(self.current_sample),
            )
        } else {
            (self, None)
        }
    }

    /// The generator after `k` requests.
    pub open spec fn after(self, k: nat) -> SineWave
        decreases k,
    {
        if k == 0 {
            self
        } else {
            self.after((k - 1) as nat).step().0
        }
    }

    /// A fresh generator for a tone of `freq` millionths of a hertz that lasts
    /// `duration_ms` milliseconds. Any frequency is accepted.
    pub fn new(freq: i64, duration_ms: u32) -> (g: SineWave)
        ensures
            g.frequency() == freq,
            g.rate() == SAMPLE_RATE,
            g.total() == sample_count(SAMPLE_RATE as nat, duration_ms as nat),
            g.position() == 0,
    {
        let rate: u64 = SAMPLE_RATE as u64;
        let millis: u64 = duration_ms as u64;
        assert(rate * millis <= 44100 * 0xffff_ffff) by (nonlinear_arith)
            requires
                rate == 44100,
                millis <= 0xffff_ffff,
        ;
        let num_samples: u64 = rate * millis / 1000;
        SineWave { freq, num_samples, sample_rate: SAMPLE_RATE, current_sample: 0 }
    }

    /// Hands out the position of the next sample, or `None` once all have been handed out.
    pub fn next(&mut self) -> (r: Option<u64>)
        ensures
            (*final(self), r) == old(self).step(),
            final(self).frequency() == old(self).frequency(),
            final(self).total() == old(self).total(),
            final(self).rate() == old(self).rate(),
            old(self).position() < old(self).total() ==> r == Some(old(self).position() as u64)
                && final(self).position() == old(self).position() + 1,
            old(self).position() >= old(self).total() ==> r.is_none() && *final(self) == *old(self),
    {
        if self.current_sample >= self.num_samples {
            None
        } else {
            let at: u64 = self.current_sample;
            self.current_sample = self.current_sample + 1;
            Some(at)
        }
    }

    /// The frequency in millionths of a hertz.
    pub fn freq(&self) -> (f: i64)
        ensures
            f == self.frequency(),
    {
        self.freq
    }

    /// The number of samples of the whole tone.
    pub fn num_samples(&self) -> (n: u64)
        ensures
            n == self.total(),
    {
        self.num_samples
    }

    /// The number of output channels: always one.
    pub fn channels(&self) -> (c: u16)
        ensures
            c == 1,
    {
        1
    }

    /// Samples per second.
    pub fn sample_rate(&self) -> (r: u32)
        ensures
            r == self.rate(),
    {
        self.sample_rate
    }

    /// A generator that has handed out nothing yet yields the positions
    /// `0, 1, .., total - 1` in order, one per request, and nothing ever after:
    /// request number `k` (from 0) yields `k` while `k < total` and `None` for
    /// every later `k`.
    pub proof fn lemma_yields_exactly(self, k: nat)
        requires
            self.position() == 0,
        ensures
            self.after(k).position() == if k < self.total() { k } else { self.total() },
            self.after(k).total() == self.total(),
            self.after(k).frequency() == self.frequency(),
            self.after(k).step().1 == if k < self.total() {
                Some(k as u64)
            } else {
                None::<u64>
            },
        decreases k,
    {
        if k > 0 {
            self.lemma_yields_exactly((k - 1) as nat);
        }
    }
}

} // verus!
