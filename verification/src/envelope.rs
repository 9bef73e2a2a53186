//! The ADSR envelope: a stateless map from elapsed time to an amplitude.

use crate::fixed::ONE;
use vstd::prelude::*;

verus! {

/// The four numbers of an envelope: `attack`, `decay` and `release` are
/// lengths in microseconds, `sustain` is a level in millionths.
pub struct Adsr {
    pub attack: nat,
    pub decay: nat,
    pub sustain: nat,
    pub release: nat,
}

impl Adsr {
    /// The three lengths are above zero and the sustain level is at most 1.
    pub open spec fn valid(self) -> bool {
        &&& self.attack > 0
        &&& self.decay > 0
        &&& self.release > 0
        &&& self.sustain <= ONE
    }

    /// The level while the note is held, `t` microseconds after its start: a
    /// linear rise from 0 to 1 over the attack, a linear move from 1 to the
    /// sustain level over the decay, then the sustain level.
    pub open spec fn held(self, t: nat) -> nat {
        if t < self.attack {
            t * (ONE as nat) / self.attack
        } else if t < self.attack + self.decay {
            let into = (t - self.attack) as nat;
            if self.sustain <= ONE {
                (ONE - (ONE - self.sustain) * into / (self.decay as int)) as nat
            } else {
                ONE as nat + ((self.sustain - ONE) * into / (self.decay as int)) as nat
            }
        } else {
            self.sustain
        }
    }

    /// The level `t` microseconds after the start of a note that was, or was
    /// not yet, released at `note_off`. From the release on the level falls
    /// linearly from the sustain level and is 0 once `release` has passed.
    pub open spec fn level(self, t: nat, note_off: Option<u64>) -> nat {
        match note_off {
            Some(off) if t >= off => {
                let since = (t - off) as nat;
                if since >= self.release {
                    0
                } else {
                    self.sustain * ((self.release - since) as nat) / self.release
                }
            },
            _ => self.held(t),
        }
    }
}

/// `a · b / c` lies between 0 and `a` when `b` is at most `c`.
proof fn lemma_share(a: int, b: int, c: int)
    requires
        0 <= a,
        0 <= b <= c,
        0 < c,
    ensures
        0 <= a * b / c <= a,
{
    vstd::arithmetic::mul::lemma_mul_inequality(b, c, a);
    vstd::arithmetic::mul::lemma_mul_nonnegative(a, b);
    vstd::arithmetic::mul::lemma_mul_is_commutative(a, b);
    vstd::arithmetic::div_mod::lemma_div_is_ordered(b * a, c * a, c);
    vstd::arithmetic::div_mod::lemma_div_multiples_vanish(a, c);
    vstd::arithmetic::div_mod::lemma_div_pos_is_pos(a * b, c);
}

/// The level of a valid envelope never leaves `[0, 1]`.
pub proof fn lemma_level_in_unit(adsr: Adsr, t: nat, note_off: Option<u64>)
    requires
        adsr.valid(),
    ensures
        0 <= adsr.level(t, note_off) <= ONE,
{
    if t < adsr.attack {
        lemma_share(ONE as int, t as int, adsr.attack as int);
        vstd::arithmetic::mul::lemma_mul_is_commutative(ONE as int, t as int);
    } else if t < adsr.attack + adsr.decay {
        lemma_share(ONE - adsr.sustain, t - adsr.attack, adsr.decay as int);
    }
    match note_off {
        Some(off) => {
            if t >= off && t - off < adsr.release {
                lemma_share(adsr.sustain as int, adsr.release - (t - off), adsr.release as int);
            }
        },
        None => {},
    }
}

/// The landmarks of a valid envelope: a held note starts at 0, stands at 1
/// when the attack ends and at the sustain level when the decay ends; a
/// released note is at 0 once the release length has passed since `off`.
pub proof fn lemma_level_landmarks(adsr: Adsr, off: u64)
    requires
        adsr.valid(),
    ensures
        adsr.level(0, None) == 0,
        adsr.level(adsr.attack, None) == ONE,
        adsr.level(adsr.attack + adsr.decay, None) == adsr.sustain,
        adsr.level(off as nat + adsr.release, Some(off)) == 0,
{
    assert(0 * (ONE as nat) / adsr.attack == 0) by (nonlinear_arith)
        requires
            adsr.attack > 0,
    ;
    assert((ONE - adsr.sustain) * 0 / (adsr.decay as int) == 0) by (nonlinear_arith)
        requires
            adsr.decay > 0,
    ;
}

/// An ADSR envelope.
pub struct Envelope {
    attack: u64,
    decay: u64,
    sustain: u64,
    release: u64,
}

impl View for Envelope {
    type V = Adsr;

    closed spec fn view(&self) -> Adsr {
        Adsr {
            attack: self.attack as nat,
            decay: self.decay as nat,
            sustain: self.sustain as nat,
            release: self.release as nat,
        }
    }
}

impl Envelope {
    /// An envelope with the lengths `attack`, `decay` and `release` in
    /// microseconds and the level `sustain` in millionths.
    pub fn new(attack: u64, decay: u64, sustain: u64, release: u64) -> (e: Envelope)
        ensures
            e@ == (Adsr {
                attack: attack as nat,
                decay: decay as nat,
                sustain: sustain as nat,
                release: release as nat,
            }),
    {
        Envelope { attack, decay, sustain, release }
    }

    /// The amplitude, in millionths, `time` microseconds after the start of
    /// the note; `note_off_time` is the time of the release, if there was one.
    pub fn apply(&self, time: u64, note_off_time: Option<u64>) -> (level: u64)
        ensures
            level == self@.level(time as nat, note_off_time),
            self@.valid() ==> level <= ONE,
    {
        proof {
            if self@.valid() {
                lemma_level_in_unit(self@, time as nat, note_off_time);
            }
        }
        match note_off_time {
            Some(off_time) => {
                if time >= off_time {
                    let release_time: u64 = time - off_time;
                    if release_time >= self.release {
                        0
                    } else {
                        let left: u64 = self.release - release_time;
                        proof {
                            lemma_share(self.sustain as int, left as int, self.release as int);
                        }
                        assert(self.sustain * left <= 0xffff_ffff_ffff_ffff * 0xffff_ffff_ffff_ffff)
                            by (nonlinear_arith)
                            requires
                                self.sustain <= 0xffff_ffff_ffff_ffff,
                                left <= 0xffff_ffff_ffff_ffff,
                        ;
                        let wide: u128 = self.sustain as u128 * left as u128 / (self.release as u128);
                        wide as u64
                    }
                } else {
                    self.calculate_envelope(time)
                }
            },
            None => self.calculate_envelope(time),
        }
    }

    fn calculate_envelope(&self, time: u64) -> (level: u64)
        ensures
            level == self@.held(time as nat),
    {
        if time < self.attack {
            proof {
                lemma_share(ONE as int, time as int, self.attack as int);
                vstd::arithmetic::mul::lemma_mul_is_commutative(ONE as int, time as int);
            }
            let wide: u128 = time as u128 * 1_000_000u128 / (self.attack as u128);
            wide as u64
        } else if (time as u128) < self.attack as u128 + self.decay as u128 {
            let decay_time: u64 = time - self.attack;
            if self.sustain <= 1_000_000 {
                let span: u64 = 1_000_000 - self.sustain;
                proof {
                    lemma_share(span as int, decay_time as int, self.decay as int);
                }
                assert(span * decay_time <= 1_000_000 * 0xffff_ffff_ffff_ffff) by (nonlinear_arith)
                    requires
                        span <= 1_000_000,
                        decay_time <= 0xffff_ffff_ffff_ffff,
                ;
                let wide: u128 = span as u128 * decay_time as u128 / (self.decay as u128);
                1_000_000 - wide as u64
            } else {
                let span: u64 = self.sustain - 1_000_000;
                proof {
                    lemma_share(span as int, decay_time as int, self.decay as int);
                }
                assert(span * decay_time <= 0xffff_ffff_ffff_ffff * 0xffff_ffff_ffff_ffff)
                    by (nonlinear_arith)
                    requires
                        span <= 0xffff_ffff_ffff_ffff,
                        decay_time <= 0xffff_ffff_ffff_ffff,
                ;
                let wide: u128 = span as u128 * decay_time as u128 / (self.decay as u128);
                1_000_000 + wide as u64
            }
        } else {
            self.sustain
        }
    }
}

} // verus!
