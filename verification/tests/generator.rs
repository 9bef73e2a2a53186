use audio_engine::generator::{SineWave, SAMPLE_RATE};

#[test]
fn generator_yields_exact_count_then_stays_exhausted() {
    let mut g = SineWave::new(440_000_000, 200);
    let mut seen: u64 = 0;
    while let Some(at) = g.next() {
        assert_eq!(at, seen);
        seen += 1;
    }
    assert_eq!(seen, 8820);
    assert_eq!(g.next(), None);
    assert_eq!(g.next(), None);
    assert_eq!(g.next(), None);
    assert_eq!(g.num_samples(), 8820);
}

#[test]
fn sample_count_is_rate_times_duration_rounded_down() {
    assert_eq!(SineWave::new(1, 2000).num_samples(), 88_200);
    assert_eq!(SineWave::new(1, 3000).num_samples(), 132_300);
    assert_eq!(SineWave::new(1, 1).num_samples(), 44);
    assert_eq!(SineWave::new(1, 7).num_samples(), 308);
    assert_eq!(SineWave::new(1, 0).num_samples(), 0);
    assert_eq!(SineWave::new(1, u32::MAX).num_samples(), 189_408_057_709);
}

#[test]
fn empty_tone_is_exhausted_at_once() {
    let mut g = SineWave::new(440_000_000, 0);
    assert_eq!(g.next(), None);
    assert_eq!(g.next(), None);
}

#[test]
fn any_frequency_is_accepted() {
    let mut zero = SineWave::new(0, 1);
    assert_eq!(zero.freq(), 0);
    assert_eq!(zero.next(), Some(0));
    let mut negative = SineWave::new(-440_000_000, 1);
    assert_eq!(negative.freq(), -440_000_000);
    assert_eq!(negative.next(), Some(0));
    assert_eq!(negative.next(), Some(1));
}

#[test]
fn generator_is_mono_at_the_fixed_rate() {
    let g = SineWave::new(440_000_000, 10);
    assert_eq!(g.channels(), 1);
    assert_eq!(g.sample_rate(), 44_100);
    assert_eq!(SAMPLE_RATE, 44_100);
}
