//! The global effect amounts and the per-voice effect processor.

use crate::fixed::{limit, limited, plus, scale, scaled, summed, ONE};
use std::collections::VecDeque;
use vstd::prelude::*;

verus! {

/// The largest delay amount that is stored: 0.5.
pub const MAX_DELAY: i64 = 500_000;

/// The largest reverb amount that is stored: 0.5.
pub const MAX_REVERB: i64 = 500_000;

/// The largest chorus amount that is stored: 0.3.
pub const MAX_CHORUS: i64 = 300_000;

/// The largest saturation amount that is stored: 0.8.
pub const MAX_SATURATION: i64 = 800_000;

/// The feedback factor of the delay line: 0.5.
pub const FEEDBACK: i64 = 500_000;

/// The weight of the reverb tap: 0.3.
pub const TAP_WEIGHT: i64 = 300_000;

/// How fast the drive of the shaper grows with the saturation amount: 4.
pub const DRIVE_SLOPE: i64 = 4_000_000;

/// One of the four global effect knobs.
#[derive(Clone, Copy, Debug, PartialEq, Eq, Structural)]
pub enum EffectKind {
    Delay,
    Reverb,
    Chorus,
    Saturation,
}

impl EffectKind {
    /// The largest amount that is stored for this knob.
    pub open spec fn ceiling(self) -> int {
        match self {
            EffectKind::Delay => MAX_DELAY as int,
            EffectKind::Reverb => MAX_REVERB as int,
            EffectKind::Chorus => MAX_CHORUS as int,
            EffectKind::Saturation => MAX_SATURATION as int,
        }
    }

    /// The knob that `name` addresses, if it is one of the four names.
    pub open spec fn named(name: Seq<char>) -> Option<EffectKind> {
        if name == "delay"@ {
            Some(EffectKind::Delay)
        } else if name == "reverb"@ {
            Some(EffectKind::Reverb)
        } else if name == "chorus"@ {
            Some(EffectKind::Chorus)
        } else if name == "saturation"@ {
            Some(EffectKind::Saturation)
        } else {
            None
        }
    }

    /// The largest amount that is stored for this knob.
    pub fn max_amount(self) -> (m: i64)
        ensures
            m == self.ceiling(),
            m >= 0,
    {
        match self {
            EffectKind::Delay => MAX_DELAY,
            EffectKind::Reverb => MAX_REVERB,
            EffectKind::Chorus => MAX_CHORUS,
            EffectKind::Saturation => MAX_SATURATION,
        }
    }

    /// Looks a knob up by its name: `"delay"`, `"reverb"`, `"chorus"` or `"saturation"`.
    pub fn from_name(name: &str) -> (kind: Option<EffectKind>)
        ensures
            kind == EffectKind::named(name@),
    {
        let owned = name.to_owned();
        if owned == "delay".to_owned() {
            Some(EffectKind::Delay)
        } else if owned == "reverb".to_owned() {
            Some(EffectKind::Reverb)
        } else if owned == "chorus".to_owned() {
            Some(EffectKind::Chorus)
        } else if owned == "saturation".to_owned() {
            Some(EffectKind::Saturation)
        } else {
            None
        }
    }
}

/// The four global effect amounts.
#[derive(Clone, Copy, Debug, PartialEq, Eq)]
pub struct EffectParams {
    pub delay_amount: i64,
    pub reverb_amount: i64,
    pub chorus_amount: i64,
    pub saturation_amount: i64,
}

impl EffectParams {
    /// Every amount lies between 0 and the ceiling of its knob.
    pub open spec fn in_range(self) -> bool {
        &&& 0 <= self.delay_amount <= MAX_DELAY
        &&& 0 <= self.reverb_amount <= MAX_REVERB
        &&& 0 <= self.chorus_amount <= MAX_CHORUS
        &&& 0 <= self.saturation_amount <= MAX_SATURATION
    }

    /// The amount of one knob.
    pub open spec fn amount(self, kind: EffectKind) -> int {
        match kind {
            EffectKind::Delay => self.delay_amount as int,
            EffectKind::Reverb => self.reverb_amount as int,
            EffectKind::Chorus => self.chorus_amount as int,
            EffectKind::Saturation => self.saturation_amount as int,
        }
    }

    /// These amounts with the knob `kind` set to `value`, clamped into its range.
    pub open spec fn with_amount(self, kind: EffectKind, value: int) -> EffectParams {
        let stored = limited(value, 0, kind.ceiling()) as i64;
        match kind {
            EffectKind::Delay => EffectParams { delay_amount: stored, ..self },
            EffectKind::Reverb => EffectParams { reverb_amount: stored, ..self },
            EffectKind::Chorus => EffectParams { chorus_amount: stored, ..self },
            EffectKind::Saturation => EffectParams { saturation_amount: stored, ..self },
        }
    }

    /// A voice built from these amounts gets an effect processor: the delay,
    /// the reverb or the saturation amount is above zero. The chorus amount
    /// plays no part.
    pub open spec fn active(self) -> bool {
        self.delay_amount > 0 || self.reverb_amount > 0 || self.saturation_amount > 0
    }

    /// Reads the amount of one knob.
    pub fn get(&self, kind: EffectKind) -> (v: i64)
        ensures
            v == self.amount(kind),
    {
        match kind {
            EffectKind::Delay => self.delay_amount,
            EffectKind::Reverb => self.reverb_amount,
            EffectKind::Chorus => self.chorus_amount,
            EffectKind::Saturation => self.saturation_amount,
        }
    }

    /// Stores `value` for the knob `kind`, clamped into the knob's range. The
    /// other three amounts stay as they are.
    pub fn set(&mut self, kind: EffectKind, value: i64)
        ensures
            *final(self) == old(self).with_amount(kind, value as int),
            final(self).amount(kind) == limited(value as int, 0, kind.ceiling()),
            0 <= final(self).amount(kind) <= kind.ceiling(),
            forall|other: EffectKind|
                other != kind ==> final(self).amount(other) == old(self).amount(other),
            old(self).in_range() ==> final(self).in_range(),
    {
        let stored: i64 = limit(value, 0, kind.max_amount());
        match kind {
            EffectKind::Delay => {
                self.delay_amount = stored;
            },
            EffectKind::Reverb => {
                self.reverb_amount = stored;
            },
            EffectKind::Chorus => {
                self.chorus_amount = stored;
            },
            EffectKind::Saturation => {
                self.saturation_amount = stored;
            },
        }
    }

    /// Whether a voice built from these amounts gets an effect processor.
    pub fn is_active(&self) -> (b: bool)
        ensures
            b == self.active(),
    {
        self.delay_amount > 0 || self.reverb_amount > 0 || self.saturation_amount > 0
    }
}

impl Default for EffectParams {
    /// All four amounts are zero.
    fn default() -> (p: EffectParams)
        ensures
            p == (EffectParams {
                delay_amount: 0,
                reverb_amount: 0,
                chorus_amount: 0,
                saturation_amount: 0,
            }),
            p.in_range(),
            !p.active(),
    {
        EffectParams { delay_amount: 0, reverb_amount: 0, chorus_amount: 0, saturation_amount: 0 }
    }
}

/// The sample that leaves the delay line: its oldest one, or silence if the line is empty.
pub open spec fn delayed(line: Seq<i64>) -> int {
    if line.len() > 0 {
        line[0] as int
    } else {
        0
    }
}

/// The dry sample mixed with the delayed one.
pub open spec fn wet(line: Seq<i64>, dry: int, delay: int) -> int {
    summed(dry, scaled(delayed(line), delay))
}

/// The delay line after one sample: the oldest sample is gone and half of the
/// wet signal stands at the end.
pub open spec fn line_after(line: Seq<i64>, dry: int, delay: int) -> Seq<i64> {
    let rest = if line.len() > 0 {
        line.subrange(1, line.len() as int)
    } else {
        line
    };
    rest.push(scaled(wet(line, dry, delay), FEEDBACK as int) as i64)
}

/// Where the reverb tap reads in a line of `len` samples: a third of the way
/// in, but never at the very front.
pub open spec fn tap_index(len: nat) -> nat {
    if len / 3 >= 1 {
        len / 3
    } else {
        1
    }
}

/// What the reverb tap adds, read from the line as it stands after the push.
pub open spec fn reverb(line: Seq<i64>, amount: int) -> int {
    if amount > 0 {
        let at = tap_index(line.len());
        let tap = if at < line.len() {
            line[at as int] as int
        } else {
            0
        };
        scaled(scaled(tap, amount), TAP_WEIGHT as int)
    } else {
        0
    }
}

/// The signal before shaping and clamping: wet plus reverb.
pub open spec fn mixed(line: Seq<i64>, dry: int, delay: int, reverb_amount: int) -> int {
    summed(wet(line, dry, delay), reverb(line_after(line, dry, delay), reverb_amount))
}

/// The drive of the soft clipper: `1 + 4 · saturation`.
pub open spec fn drive(saturation: int) -> int {
    summed(ONE as int, scaled(saturation, DRIVE_SLOPE as int))
}

/// A sample as it is emitted: clamped into `[-ONE, ONE]`.
pub open spec fn emitted(x: int) -> int {
    limited(x, -(ONE as int), ONE as int)
}

/// A delay line that holds anything keeps its length from sample to sample.
pub proof fn lemma_line_keeps_length(line: Seq<i64>, dry: int, delay: int)
    requires
        line.len() > 0,
    ensures
        line_after(line, dry, delay).len() == line.len(),
{
}

/// Whatever the signal, the emitted sample lies in `[-ONE, ONE]`.
pub proof fn lemma_emitted_in_unit(x: int)
    ensures
        -ONE <= emitted(x) <= ONE,
{
}

/// What the processor hands back for one input sample.
#[derive(Clone, Copy, Debug, PartialEq, Eq)]
pub enum Stage {
    /// The finished output sample.
    Ready(i64),
    /// Saturation is on: the caller computes
    /// `tanh(value · drive) / tanh(drive)` and passes the result to
    /// [`EffectProcessor::finish`].
    Shape { value: i64, drive: i64 },
}

/// A feedback delay line with a reverb tap, in front of a soft clipper.
pub struct EffectProcessor {
    delay_buffer: VecDeque<i64>,
    delay_amount: i64,
    reverb_amount: i64,
    saturation_amount: i64,
    sample_rate: u32,
}

impl EffectProcessor {
    /// The delay line, oldest sample first.
    pub closed spec fn line(&self) -> Seq<i64> {
        self.delay_buffer@
    }

    /// The delay amount taken at construction.
    pub closed spec fn delay(&self) -> int {
        self.delay_amount as int
    }

    /// The reverb amount taken at construction.
    pub closed spec fn reverb(&self) -> int {
        self.reverb_amount as int
    }

    /// The saturation amount taken at construction.
    pub closed spec fn saturation(&self) -> int {
        self.saturation_amount as int
    }

    /// Samples per second of the signal.
    pub closed spec fn rate(&self) -> nat {
        self.sample_rate as nat
    }

    /// What `process` hands back for the input `dry`.
    pub open spec fn staged(&self, dry: int) -> Stage {
        let out = mixed(self.line(), dry, self.delay(), self.reverb());
        if self.saturation() > 0 {
            Stage::Shape { value: out as i64, drive: drive(self.saturation()) as i64 }
        } else {
            Stage::Ready(emitted(out) as i64)
        }
    }

    /// A processor for a signal of `sample_rate` samples per second. Its delay
    /// line holds a quarter of a second of silence.
    pub fn new(
        sample_rate: u32,
        delay_amount: i64,
        reverb_amount: i64,
        saturation_amount: i64,
    ) -> (p: EffectProcessor)
        ensures
            p.line() == Seq::new((sample_rate / 4) as nat, |i: int| 0i64),
            p.delay() == delay_amount,
            p.reverb() == reverb_amount,
            p.saturation() == saturation_amount,
            p.rate() == sample_rate,
    {
        let delay_samples: usize = (sample_rate / 4) as usize;
        let mut delay_buffer: VecDeque<i64> = VecDeque::with_capacity(delay_samples);
        let mut filled: usize = 0;
        while filled < delay_samples
            invariant
                filled <= delay_samples,
                delay_buffer@ == Seq::new(filled as nat, |i: int| 0i64),
            decreases delay_samples - filled,
        {
            delay_buffer.push_back(0);
            filled = filled + 1;
            assert(delay_buffer@ =~= Seq::new(filled as nat, |i: int| 0i64));
        }
        EffectProcessor {
            delay_buffer,
            delay_amount,
            reverb_amount,
            saturation_amount,
            sample_rate,
        }
    }

    /// Takes one input sample through the delay line and the reverb tap. With
    /// saturation off the result is the finished sample, clamped into
    /// `[-ONE, ONE]`; with saturation on it is the signal to shape and the
    /// drive to shape it with.
    pub fn process(&mut self, sample: i64) -> (stage: Stage)
        ensures
            stage == old(self).staged(sample as int),
            final(self).line() == line_after(old(self).line(), sample as int, old(self).delay()),
            final(self).delay() == old(self).delay(),
            final(self).reverb() == old(self).reverb(),
            final(self).saturation() == old(self).saturation(),
            final(self).rate() == old(self).rate(),
            old(self).line().len() > 0 ==> final(self).line().len() == old(self).line().len(),
            stage matches Stage::Ready(s) ==> -ONE <= s <= ONE,
    {
        broadcast use vstd::std_specs::vecdeque::group_vec_dequeue_axioms;

        let delayed_sample: i64 = match self.delay_buffer.pop_front() {
            Some(s) => s,
            None => 0,
        };
        let wet_sample: i64 = plus(sample, scale(delayed_sample, self.delay_amount));
        self.delay_buffer.push_back(scale(wet_sample, FEEDBACK));
        assert(self.delay_buffer@ =~= line_after(
            old(self).line(),
            sample as int,
            old(self).delay(),
        ));
        let reverb_part: i64 = if self.reverb_amount > 0 {
            let len: usize = self.delay_buffer.len();
            let third: usize = len / 3;
            let at: usize = if third >= 1 {
                third
            } else {
                1
            };
            let tap: i64 = if at < len {
                self.delay_buffer[at]
            } else {
                0
            };
            scale(scale(tap, self.reverb_amount), TAP_WEIGHT)
        } else {
            0
        };
        let output: i64 = plus(wet_sample, reverb_part);
        if self.saturation_amount > 0 {
            Stage::Shape { value: output, drive: plus(ONE, scale(self.saturation_amount, DRIVE_SLOPE)) }
        } else {
            Stage::Ready(limit(output, -ONE, ONE))
        }
    }

    /// Clamps a shaped sample into `[-ONE, ONE]`: the last step for a sample
    /// that went through the soft clipper.
    pub fn finish(shaped: i64) -> (s: i64)
        ensures
            s == emitted(shaped as int),
            -ONE <= s <= ONE,
    {
        limit(shaped, -ONE, ONE)
    }

    /// Whether samples of this processor go through the soft clipper.
    pub fn saturates(&self) -> (b: bool)
        ensures
            b == (self.saturation() > 0),
    {
        self.saturation_amount > 0
    }

    /// Samples per second of the signal.
    pub fn sample_rate(&self) -> (r: u32)
        ensures
            r == self.rate(),
    {
        self.sample_rate
    }
}

} // verus!
