use samplemap::chain::{ChainRun, TierId};
use samplemap::command::Msg;
use samplemap::engine::{Action, Engine, Phase};

#[test]
fn stop_while_idle_is_a_noop() {
    let mut e = Engine::new(true);
    assert_eq!(e.phase(), Phase::Idle);
    let a = e.on_command(Msg::Stop);
    assert!(matches!(a, Action::Noop));
    assert_eq!(e.phase(), Phase::Idle);
    assert!(e.current_path().is_none());
}

#[test]
fn play_then_stop_retires_the_voice() {
    let mut e = Engine::new(true);
    let a = e.on_command(Msg::Play("kick.wav".to_owned()));
    match a {
        Action::BeginDecode { retire, path } => {
            assert!(!retire);
            assert_eq!(path, "kick.wav");
        }
        other => panic!("expected a decode to begin, got noop-ish {:?}", discriminant(&other)),
    }
    assert_eq!(e.phase(), Phase::Decoding);
    let a = e.on_decode_result(true);
    match a {
        Action::StartVoice { path } => assert_eq!(path, "kick.wav"),
        other => panic!("expected the voice to start, got {:?}", discriminant(&other)),
    }
    assert_eq!(e.phase(), Phase::Playing);
    assert_eq!(e.current_path().as_deref(), Some("kick.wav"));
    let a = e.on_command(Msg::Stop);
    assert!(matches!(a, Action::StopVoice));
    assert_eq!(e.phase(), Phase::Idle);
    assert!(e.current_path().is_none());
}

#[test]
fn back_to_back_plays_keep_only_the_second_voice() {
    let mut e = Engine::new(true);
    let a = e.on_command(Msg::Play("a.wav".to_owned()));
    assert!(matches!(a, Action::BeginDecode { retire: false, .. }));
    let a = e.on_decode_result(true);
    assert!(matches!(a, Action::StartVoice { .. }));
    // The second play retires the first voice before its decode begins.
    let a = e.on_command(Msg::Play("b.wav".to_owned()));
    match a {
        Action::BeginDecode { retire, path } => {
            assert!(retire);
            assert_eq!(path, "b.wav");
        }
        other => panic!("expected a decode to begin, got {:?}", discriminant(&other)),
    }
    let a = e.on_decode_result(true);
    match a {
        Action::StartVoice { path } => assert_eq!(path, "b.wav"),
        other => panic!("expected the voice to start, got {:?}", discriminant(&other)),
    }
    assert_eq!(e.phase(), Phase::Playing);
    assert_eq!(e.current_path().as_deref(), Some("b.wav"));
}

#[test]
fn failed_decode_returns_to_idle_with_one_log_action() {
    let mut e = Engine::new(true);
    let a = e.on_command(Msg::Play("missing.wav".to_owned()));
    assert!(matches!(a, Action::BeginDecode { .. }));
    let a = e.on_decode_result(false);
    match a {
        Action::LogDecodeFailure { path } => assert_eq!(path, "missing.wav"),
        other => panic!("expected one aggregated log action, got {:?}", discriminant(&other)),
    }
    assert_eq!(e.phase(), Phase::Idle);
    assert!(e.current_path().is_none());
}

#[test]
fn failed_play_does_not_resume_the_previous_voice() {
    let mut e = Engine::new(true);
    e.on_command(Msg::Play("a.wav".to_owned()));
    e.on_decode_result(true);
    e.on_command(Msg::Play("broken.wav".to_owned()));
    let a = e.on_decode_result(false);
    assert!(matches!(a, Action::LogDecodeFailure { .. }));
    // Silence: idle, no voice, no resumption of a.wav.
    assert_eq!(e.phase(), Phase::Idle);
    assert!(e.current_path().is_none());
}

#[test]
fn degraded_engine_ignores_every_command() {
    let mut e = Engine::new(false);
    let a = e.on_command(Msg::Play("a.wav".to_owned()));
    assert!(matches!(a, Action::Noop));
    assert_eq!(e.phase(), Phase::Idle);
    let a = e.on_command(Msg::Stop);
    assert!(matches!(a, Action::Noop));
    assert_eq!(e.phase(), Phase::Idle);
}

#[test]
fn exhausting_all_tiers_aggregates_three_causes_in_order() {
    let mut e = Engine::new(true);
    e.on_command(Msg::Play("nonexistent.wav".to_owned()));
    // The worker now runs the decode chain; every tier fails.
    let mut chain = ChainRun::new();
    assert_eq!(chain.current_tier(), Some(TierId::Structured));
    chain.record_failure("open failed".to_owned());
    assert_eq!(chain.current_tier(), Some(TierId::Probing));
    chain.record_failure("probe failed".to_owned());
    assert_eq!(chain.current_tier(), Some(TierId::Generic));
    chain.record_failure("generic decode failed".to_owned());
    assert_eq!(chain.current_tier(), None);
    assert!(chain.exhausted());
    let agg = chain.into_aggregate();
    assert_eq!(
        agg.causes,
        vec![
            "open failed".to_owned(),
            "probe failed".to_owned(),
            "generic decode failed".to_owned()
        ]
    );
    // Exactly one log action, and the engine ends idle.
    let a = e.on_decode_result(false);
    assert!(matches!(a, Action::LogDecodeFailure { .. }));
    assert_eq!(e.phase(), Phase::Idle);
}

#[test]
fn unsupported_fast_path_falls_to_the_probing_tier_first() {
    // A tier-one failure must hand the file to the probing decoder before
    // the generic one.
    let mut chain = ChainRun::new();
    assert_eq!(chain.current_tier(), Some(TierId::Structured));
    chain.record_failure("unsupported encoding: float 64".to_owned());
    assert_eq!(chain.current_tier(), Some(TierId::Probing));
    assert!(!chain.exhausted());
}

fn discriminant(a: &Action) -> &'static str {
    match a {
        Action::Noop => "Noop",
        Action::StopVoice => "StopVoice",
        Action::BeginDecode { .. } => "BeginDecode",
        Action::StartVoice { .. } => "StartVoice",
        Action::LogDecodeFailure { .. } => "LogDecodeFailure",
    }
}
