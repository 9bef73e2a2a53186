use audio_engine::effects::{EffectKind, Stage};
use audio_engine::engine::{AudioEngine, Chain, EngineError, Instrument};
use audio_engine::registry::VoiceRegistry;

#[test]
fn set_effect_param_clamps_and_stores() {
    let mut engine: AudioEngine<u32> = AudioEngine::new();
    assert_eq!(engine.set_effect_param("delay", 900_000), Ok(()));
    assert_eq!(engine.effect_params().delay_amount, 500_000);
    assert_eq!(engine.set_effect_param("saturation", -200_000), Ok(()));
    assert_eq!(engine.effect_params().saturation_amount, 0);
    assert_eq!(engine.set_effect_param("chorus", 1_000_000), Ok(()));
    assert_eq!(engine.effect_params().chorus_amount, 300_000);
    assert_eq!(engine.set_effect_param("reverb", 123_000), Ok(()));
    assert_eq!(engine.effect_params().reverb_amount, 123_000);
}

#[test]
fn unknown_effect_name_is_an_error_and_changes_nothing() {
    let mut engine: AudioEngine<u32> = AudioEngine::new();
    assert_eq!(engine.set_effect_param("delay", 200_000), Ok(()));
    let before = engine.effect_params();
    assert_eq!(engine.set_effect_param("bogus", 100_000), Err(EngineError::UnknownEffect));
    assert_eq!(engine.effect_params(), before);
    assert_eq!(EngineError::UnknownEffect.message(), "Unknown effect parameter");
}

#[test]
fn replaying_a_note_replaces_its_voice() {
    let mut engine: AudioEngine<u32> = AudioEngine::new();
    assert_eq!(engine.play_note("n1".to_string(), 10), None);
    assert_eq!(engine.play_note("n1".to_string(), 11), Some(10));
    assert_eq!(engine.active_count(), 1);
    assert!(engine.is_playing("n1"));
    assert_eq!(engine.stop_note("n1"), Some(11));
    assert_eq!(engine.active_count(), 0);
}

#[test]
fn stop_note_removes_only_that_note() {
    let mut engine: AudioEngine<u32> = AudioEngine::new();
    engine.play_note("a".to_string(), 1);
    engine.play_note("b".to_string(), 2);
    engine.play_note("c".to_string(), 3);
    assert_eq!(engine.stop_note("b"), Some(2));
    assert_eq!(engine.active_count(), 2);
    assert!(engine.is_playing("a"));
    assert!(!engine.is_playing("b"));
    assert!(engine.is_playing("c"));
    assert_eq!(engine.stop_note("b"), None);
    assert_eq!(engine.stop_note("never played"), None);
    assert_eq!(engine.active_count(), 2);
}

#[test]
fn stop_all_notes_empties_the_registry() {
    let mut engine: AudioEngine<u32> = AudioEngine::new();
    assert_eq!(engine.stop_all_notes(), Vec::<u32>::new());
    assert_eq!(engine.active_count(), 0);
    engine.play_note("a".to_string(), 1);
    engine.play_note("b".to_string(), 2);
    engine.play_note("a".to_string(), 3);
    let mut voices = engine.stop_all_notes();
    voices.sort();
    assert_eq!(voices, vec![2, 3]);
    assert_eq!(engine.active_count(), 0);
    assert!(!engine.is_playing("a"));
    assert_eq!(engine.stop_all_notes(), Vec::<u32>::new());
}

#[test]
fn registry_keeps_one_voice_per_id() {
    let mut r: VoiceRegistry<&'static str> = VoiceRegistry::new();
    assert_eq!(r.len(), 0);
    assert_eq!(r.insert("x".to_string(), "first"), None);
    assert_eq!(r.insert("y".to_string(), "other"), None);
    assert_eq!(r.insert("x".to_string(), "second"), Some("first"));
    assert_eq!(r.len(), 2);
    assert!(r.contains("x"));
    assert!(!r.contains("z"));
    assert_eq!(r.remove("x"), Some("second"));
    assert_eq!(r.remove("x"), None);
    assert_eq!(r.drain(), vec!["other"]);
    assert_eq!(r.len(), 0);
}

#[test]
fn instrument_codes() {
    assert_eq!(Instrument::from_code(1), Instrument::Synth);
    assert_eq!(Instrument::from_code(2), Instrument::Bass);
    assert_eq!(Instrument::from_code(3), Instrument::Keys);
    assert_eq!(Instrument::from_code(4), Instrument::Drum);
    assert_eq!(Instrument::from_code(0), Instrument::Synth);
    assert_eq!(Instrument::from_code(5), Instrument::Synth);
    assert_eq!(Instrument::from_code(255), Instrument::Synth);
}

#[test]
fn instrument_tables() {
    assert_eq!(Instrument::Synth.duration_ms(), 2000);
    assert_eq!(Instrument::Bass.duration_ms(), 2000);
    assert_eq!(Instrument::Keys.duration_ms(), 3000);
    assert_eq!(Instrument::Drum.duration_ms(), 200);
    assert_eq!(Instrument::Synth.volume_scale(), 300_000);
    assert_eq!(Instrument::Bass.volume_scale(), 400_000);
    assert_eq!(Instrument::Keys.volume_scale(), 350_000);
    assert_eq!(Instrument::Drum.volume_scale(), 500_000);
    assert_eq!(Instrument::Bass.pitch(440_000_000), 220_000_000);
    assert_eq!(Instrument::Keys.pitch(440_000_000), 440_000_000);
}

#[test]
fn drum_note_without_effects() {
    let engine: AudioEngine<u32> = AudioEngine::new();
    let mut chain = engine.create_chain(880_000_000, 4, 1_000_000);
    assert_eq!(chain.source.freq(), 880_000_000);
    assert_eq!(chain.source.num_samples(), 8820);
    assert_eq!(chain.gain, 500_000);
    assert!(chain.effects.is_none());
    let mut produced: u64 = 0;
    while let Some(_) = chain.source.next() {
        assert_eq!(chain.render(1_000_000), Stage::Ready(500_000));
        assert_eq!(chain.render(-600_000), Stage::Ready(-300_000));
        produced += 1;
    }
    assert_eq!(produced, 8820);
}

#[test]
fn chains_of_the_other_instruments() {
    let engine: AudioEngine<u32> = AudioEngine::new();
    let synth = engine.create_chain(440_000_000, 1, 800_000);
    assert_eq!(synth.source.num_samples(), 88_200);
    assert_eq!(synth.gain, 240_000);
    let bass = engine.create_chain(440_000_000, 2, 800_000);
    assert_eq!(bass.source.freq(), 220_000_000);
    assert_eq!(bass.source.num_samples(), 88_200);
    assert_eq!(bass.gain, 320_000);
    let keys = engine.create_chain(440_000_000, 3, 800_000);
    assert_eq!(keys.source.num_samples(), 132_300);
    assert_eq!(keys.gain, 280_000);
    let fallback = engine.create_chain(440_000_000, 77, 800_000);
    assert_eq!(fallback.source.num_samples(), 88_200);
    assert_eq!(fallback.gain, 240_000);
}

#[test]
fn unclamped_volume_passes_through_a_raw_chain() {
    let engine: AudioEngine<u32> = AudioEngine::new();
    let mut chain = engine.create_chain(440_000_000, 4, 10_000_000);
    assert_eq!(chain.gain, 5_000_000);
    assert_eq!(chain.render(1_000_000), Stage::Ready(5_000_000));
}

#[test]
fn a_chain_keeps_the_amounts_it_was_made_with() {
    let mut engine: AudioEngine<u32> = AudioEngine::new();
    let mut early = engine.create_chain(440_000_000, 1, 1_000_000);
    assert_eq!(engine.set_effect_param("delay", 500_000), Ok(()));
    assert_eq!(engine.set_effect_param("saturation", 800_000), Ok(()));
    let mut late = engine.create_chain(440_000_000, 1, 1_000_000);
    assert!(early.effects.is_none());
    assert!(late.effects.is_some());
    assert_eq!(early.render(1_000_000), Stage::Ready(300_000));
    assert_eq!(late.render(1_000_000), Stage::Shape { value: 300_000, drive: 4_200_000 });
    assert_eq!(engine.set_effect_param("saturation", 0), Ok(()));
    assert_eq!(late.render(1_000_000), Stage::Shape { value: 300_000, drive: 4_200_000 });
}

#[test]
fn chorus_alone_builds_a_raw_chain() {
    let mut engine: AudioEngine<u32> = AudioEngine::new();
    assert_eq!(engine.set_effect_param("chorus", 300_000), Ok(()));
    let chain = engine.create_chain(440_000_000, 1, 1_000_000);
    assert!(chain.effects.is_none());
    let params = engine.effect_params();
    assert_eq!(params.get(EffectKind::Chorus), 300_000);
    let built = Chain::build(&params, 100_000_000, Instrument::Drum, 1_000_000);
    assert!(built.effects.is_none());
    assert_eq!(built.source.num_samples(), 8820);
}

#[test]
fn clamped_output_with_effects_on() {
    let mut engine: AudioEngine<u32> = AudioEngine::new();
    assert_eq!(engine.set_effect_param("reverb", 100_000), Ok(()));
    let mut chain = engine.create_chain(440_000_000, 4, 10_000_000);
    assert_eq!(chain.render(1_000_000), Stage::Ready(1_000_000));
    assert_eq!(chain.render(-1_000_000), Stage::Ready(-1_000_000));
}
