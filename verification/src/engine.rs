//! The engine: instruments, the sample chain of a voice, and the registry of
//! playing voices together with the global effect amounts.

use crate::effects::{line_after, EffectKind, EffectParams, EffectProcessor, Stage};
use crate::fixed::{scale, scaled};
use crate::generator::{sample_count, SineWave, SAMPLE_RATE};
use crate::registry::VoiceRegistry;
use vstd::prelude::*;

verus! {

/// The instruments of the engine.
#[derive(Clone, Copy, Debug, PartialEq, Eq, Structural)]
pub enum Instrument {
    Synth,
    Bass,
    Keys,
    Drum,
}

impl Instrument {
    /// The instrument of a code: 1 is the synth, 2 the bass, 3 the keys, 4 the
    /// drum, and every other code is the synth again.
    pub open spec fn of_code(code: u8) -> Instrument {
        if code == 2 {
            Instrument::Bass
        } else if code == 3 {
            Instrument::Keys
        } else if code == 4 {
            Instrument::Drum
        } else {
            Instrument::Synth
        }
    }

    /// The length of a note in milliseconds.
    pub open spec fn millis(self) -> nat {
        match self {
            Instrument::Synth => 2000,
            Instrument::Bass => 2000,
            Instrument::Keys => 3000,
            Instrument::Drum => 200,
        }
    }

    /// The factor by which the volume of a note is scaled.
    pub open spec fn level(self) -> int {
        match self {
            Instrument::Synth => 300_000,
            Instrument::Bass => 400_000,
            Instrument::Keys => 350_000,
            Instrument::Drum => 500_000,
        }
    }

    /// The frequency at which a note of `frequency` sounds: the bass plays an
    /// octave lower, the others as asked.
    pub open spec fn pitched(self, frequency: int) -> int {
        match self {
            Instrument::Bass => scaled(frequency, 500_000),
            _ => frequency,
        }
    }

    /// The instrument of a code.
    pub fn from_code(code: u8) -> (i: Instrument)
        ensures
            i == Instrument::of_code(code),
    {
        match code {
            2 => Instrument::Bass,
            3 => Instrument::Keys,
            4 => Instrument::Drum,
            _ => Instrument::Synth,
        }
    }

    /// The length of a note in milliseconds.
    pub fn duration_ms(self) -> (ms: u32)
        ensures
            ms == self.millis(),
    {
        match self {
            Instrument::Synth => 2000,
            Instrument::Bass => 2000,
            Instrument::Keys => 3000,
            Instrument::Drum => 200,
        }
    }

    /// The factor by which the volume of a note is scaled.
    pub fn volume_scale(self) -> (f: i64)
        ensures
            f == self.level(),
    {
        match self {
            Instrument::Synth => 300_000,
            Instrument::Bass => 400_000,
            Instrument::Keys => 350_000,
            Instrument::Drum => 500_000,
        }
    }

    /// The frequency at which a note of `frequency` sounds.
    pub fn pitch(self, frequency: i64) -> (f: i64)
        ensures
            f == self.pitched(frequency as int),
    {
        match self {
            Instrument::Bass => scale(frequency, 500_000),
            _ => frequency,
        }
    }
}

/// The sample chain of one voice: a generator, a gain, and an effect processor
/// where effects were on when the voice was made.
pub struct Chain {
    pub source: SineWave,
    pub gain: i64,
    pub effects: Option<EffectProcessor>,
}

impl Chain {
    /// This is the chain of a fresh note of `instrument` at `frequency` and
    /// `volume`, made while the effect amounts were `params`.
    pub open spec fn fresh_for(
        self,
        params: EffectParams,
        frequency: int,
        instrument: Instrument,
        volume: int,
    ) -> bool {
        &&& self.source.frequency() == instrument.pitched(frequency)
        &&& self.source.rate() == SAMPLE_RATE
        &&& self.source.total() == sample_count(SAMPLE_RATE as nat, instrument.millis())
        &&& self.source.position() == 0
        &&& self.gain == scaled(volume, instrument.level())
        &&& self.effects.is_some() == params.active()
        &&& match self.effects {
            Some(p) => {
                &&& p.line() == Seq::new((SAMPLE_RATE / 4) as nat, |i: int| 0i64)
                &&& p.delay() == params.delay_amount
                &&& p.reverb() == params.reverb_amount
                &&& p.saturation() == params.saturation_amount
                &&& p.rate() == SAMPLE_RATE
            },
            None => true,
        }
    }

    /// Builds the chain of a fresh note. The effect amounts are taken now: a
    /// later change of the global amounts does not reach this chain.
    pub fn build(
        params: &EffectParams,
        frequency: i64,
        instrument: Instrument,
        volume: i64,
    ) -> (c: Chain)
        ensures
            c.fresh_for(*params, frequency as int, instrument, volume as int),
    {
        let source = SineWave::new(instrument.pitch(frequency), instrument.duration_ms());
        let gain: i64 = scale(volume, instrument.volume_scale());
        let effects = if params.is_active() {
            Some(
                EffectProcessor::new(
                    source.sample_rate(),
                    params.delay_amount,
                    params.reverb_amount,
                    params.saturation_amount,
                ),
            )
        } else {
            None
        };
        Chain { source, gain, effects }
    }

    /// Takes one sample of the generator, as the caller evaluated it, through
    /// the gain and, where the chain has one, the effect processor. A chain
    /// without effects hands the amplified sample on as it is.
    pub fn render(&mut self, raw: i64) -> (stage: Stage)
        ensures
            final(self).source == old(self).source,
            final(self).gain == old(self).gain,
            match old(self).effects {
                Some(p) => {
                    &&& stage == p.staged(scaled(raw as int, old(self).gain as int))
                    &&& final(self).effects.is_some()
                    &&& final(self).effects.unwrap().line() == line_after(
                        p.line(),
                        scaled(raw as int, old(self).gain as int),
                        p.delay(),
                    )
                    &&& final(self).effects.unwrap().delay() == p.delay()
                    &&& final(self).effects.unwrap().reverb() == p.reverb()
                    &&& final(self).effects.unwrap().saturation() == p.saturation()
                    &&& final(self).effects.unwrap().rate() == p.rate()
                },
                None => {
                    &&& stage == Stage::Ready(scaled(raw as int, old(self).gain as int) as i64)
                    &&& final(self).effects.is_none()
                },
            },
    {
        let amplified: i64 = scale(raw, self.gain);
        match &mut self.effects {
            Some(processor) => processor.process(amplified),
            None => Stage::Ready(amplified),
        }
    }
}

/// Why a request to the engine failed.
#[derive(Clone, Copy, Debug, PartialEq, Eq)]
pub enum EngineError {
    /// The name is none of the four effect names.
    UnknownEffect,
}

impl EngineError {
    /// The error in words.
    pub fn message(&self) -> (text: String)
        ensures
            text@ == "Unknown effect parameter"@,
    {
        "Unknown effect parameter".to_owned()
    }
}

/// The playing voices and the global effect amounts. What a voice is (the
/// handle of an output sink) is the caller's matter: the engine keeps the
/// voices by note id and hands back every voice that has to be silenced.
pub struct AudioEngine<V> {
    active_notes: VoiceRegistry<V>,
    effects: EffectParams,
}

impl<V> AudioEngine<V> {
    /// The playing voices by note id.
    pub closed spec fn notes(&self) -> Map<Seq<char>, V> {
        self.active_notes@
    }

    /// The global effect amounts.
    pub closed spec fn params(&self) -> EffectParams {
        self.effects
    }

    /// The engine is consistent: no note id has two voices and every effect
    /// amount lies in its range.
    pub closed spec fn wf(&self) -> bool {
        &&& self.active_notes.wf()
        &&& self.effects.in_range()
    }

    /// A consistent engine holds finitely many voices and amounts in range.
    pub proof fn lemma_wf(&self)
        requires
            self.wf(),
        ensures
            self.notes().dom().finite(),
            self.params().in_range(),
    {
        self.active_notes.lemma_finite();
    }

    /// An engine without voices and with every effect amount at zero.
    pub fn new() -> (e: AudioEngine<V>)
        ensures
            e.wf(),
            e.notes() == Map::<Seq<char>, V>::empty(),
            e.params() == (EffectParams {
                delay_amount: 0,
                reverb_amount: 0,
                chorus_amount: 0,
                saturation_amount: 0,
            }),
    {
        AudioEngine { active_notes: VoiceRegistry::new(), effects: EffectParams::default() }
    }

    /// The effect amounts as they stand.
    pub fn effect_params(&self) -> (p: EffectParams)
        ensures
            p == self.params(),
    {
        self.effects
    }

    /// The number of playing voices.
    pub fn active_count(&self) -> (n: usize)
        requires
            self.wf(),
        ensures
            n == self.notes().dom().len(),
    {
        self.active_notes.len()
    }

    /// Whether a voice plays under `note_id`.
    pub fn is_playing(&self, note_id: &str) -> (b: bool)
        requires
            self.wf(),
        ensures
            b == self.notes().contains_key(note_id@),
    {
        self.active_notes.contains(note_id)
    }

    /// Builds the sample chain for a note: the generator of the instrument
    /// that `instrument` codes for, its gain, and an effect processor if the
    /// delay, reverb or saturation amount is above zero right now.
    pub fn create_chain(&self, frequency: i64, instrument: u8, volume: i64) -> (c: Chain)
        ensures
            c.fresh_for(
                self.params(),
                frequency as int,
                Instrument::of_code(instrument),
                volume as int,
            ),
    {
        Chain::build(&self.effects, frequency, Instrument::from_code(instrument), volume)
    }

    /// Registers the voice that now plays under `note_id`. A voice that played
    /// under the same id is replaced and handed back for release. The effect
    /// amounts stay as they are.
    pub fn play_note(&mut self, note_id: String, voice: V) -> (superseded: Option<V>)
        requires
            old(self).wf(),
        ensures
            final(self).wf(),
            final(self).notes() == old(self).notes().insert(note_id@, voice),
            final(self).params() == old(self).params(),
            superseded == if old(self).notes().contains_key(note_id@) {
                Some(old(self).notes()[note_id@])
            } else {
                None::<V>
            },
    {
        self.active_notes.insert(note_id, voice)
    }

    /// Takes the voice under `note_id` out of the registry and hands it back
    /// to be silenced. An id under which nothing plays changes nothing and
    /// gives `None`.
    pub fn stop_note(&mut self, note_id: &str) -> (voice: Option<V>)
        requires
            old(self).wf(),
        ensures
            final(self).wf(),
            final(self).notes() == old(self).notes().remove(note_id@),
            final(self).params() == old(self).params(),
            voice == if old(self).notes().contains_key(note_id@) {
                Some(old(self).notes()[note_id@])
            } else {
                None::<V>
            },
    {
        self.active_notes.remove(note_id)
    }

    /// Empties the registry and hands back every voice that played, to be
    /// silenced and stopped.
    pub fn stop_all_notes(&mut self) -> (voices: Vec<V>)
        requires
            old(self).wf(),
        ensures
            final(self).wf(),
            final(self).notes() == Map::<Seq<char>, V>::empty(),
            final(self).params() == old(self).params(),
            voices@.len() == old(self).notes().dom().len(),
            forall|k: Seq<char>| #[trigger]
                old(self).notes().contains_key(k) ==> exists|i: int|
                    0 <= i < voices@.len() && #[trigger] voices@[i] == old(self).notes()[k],
            forall|i: int|
                0 <= i < voices@.len() ==> old(self).notes().contains_value(#[trigger] voices@[i]),
    {
        self.active_notes.drain()
    }

    /// Sets the effect amount that `effect` names to `value`, clamped into the
    /// range of that amount. A name that is none of `"delay"`, `"reverb"`,
    /// `"chorus"`, `"saturation"` is an error and changes nothing. Voices that
    /// play already keep the amounts they were made with.
    pub fn set_effect_param(&mut self, effect: &str, value: i64) -> (r: Result<(), EngineError>)
        requires
            old(self).wf(),
        ensures
            final(self).wf(),
            final(self).notes() == old(self).notes(),
            match EffectKind::named(effect@) {
                Some(kind) => {
                    &&& r.is_ok()
                    &&& final(self).params() == old(self).params().with_amount(kind, value as int)
                },
                None => {
                    &&& r == Err::<(), EngineError>(EngineError::UnknownEffect)
                    &&& final(self).params() == old(self).params()
                },
            },
    {
        match EffectKind::from_name(effect) {
            Some(kind) => {
                self.effects.set(kind, value);
                Ok(())
            },
            None => Err(EngineError::UnknownEffect),
        }
    }
}

} // verus!
