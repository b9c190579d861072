use samplemap::probe::{ProbeAccum, ProbeError, ProbeEvent, ProbeStep};
use samplemap::sample::Sample;

#[test]
fn accumulates_samples_and_keeps_the_first_spec() {
    let mut acc = ProbeAccum::new();
    let step = acc.on_event(ProbeEvent::Decoded {
        channels: 2,
        sample_rate: 44100,
        samples: vec![1, 2, 3],
    });
    assert!(matches!(step, ProbeStep::Continue));
    // A mid-stream spec change: the first observed spec stands.
    let step = acc.on_event(ProbeEvent::Decoded {
        channels: 1,
        sample_rate: 22050,
        samples: vec![4],
    });
    assert!(matches!(step, ProbeStep::Continue));
    let step = acc.on_event(ProbeEvent::EndOfStream);
    assert!(matches!(step, ProbeStep::Finished));
    let d = acc.finish().unwrap();
    assert_eq!(d.channels, 2);
    assert_eq!(d.sample_rate, 44100);
    let expected: Vec<Sample> = [1u32, 2, 3, 4]
        .iter()
        .map(|&bits| Sample::FloatBits { bits })
        .collect();
    assert_eq!(d.samples, expected);
}

#[test]
fn skippable_events_change_nothing() {
    let mut acc = ProbeAccum::new();
    acc.on_event(ProbeEvent::Decoded { channels: 1, sample_rate: 8000, samples: vec![7] });
    assert!(matches!(acc.on_event(ProbeEvent::OtherTrack), ProbeStep::Continue));
    assert!(matches!(acc.on_event(ProbeEvent::SkippableFault), ProbeStep::Continue));
    let d = acc.finish().unwrap();
    assert_eq!(d.samples, vec![Sample::FloatBits { bits: 7 }]);
}

#[test]
fn reset_asks_for_reinstantiation_and_keeps_the_accumulation() {
    let mut acc = ProbeAccum::new();
    acc.on_event(ProbeEvent::Decoded { channels: 1, sample_rate: 8000, samples: vec![9] });
    let step = acc.on_event(ProbeEvent::ResetRequired);
    assert!(matches!(step, ProbeStep::Reinstantiate));
    acc.on_event(ProbeEvent::Decoded { channels: 1, sample_rate: 8000, samples: vec![10] });
    let d = acc.finish().unwrap();
    assert_eq!(
        d.samples,
        vec![Sample::FloatBits { bits: 9 }, Sample::FloatBits { bits: 10 }]
    );
}

#[test]
fn fatal_event_fails_with_its_cause() {
    let mut acc = ProbeAccum::new();
    let step = acc.on_event(ProbeEvent::Fatal { cause: "read packet".to_owned() });
    match step {
        ProbeStep::Failed { cause } => assert_eq!(cause, "read packet"),
        _ => panic!("expected the tier to fail"),
    }
}

#[test]
fn empty_stream_yields_no_buffer() {
    let mut acc = ProbeAccum::new();
    assert!(matches!(acc.on_event(ProbeEvent::EndOfStream), ProbeStep::Finished));
    assert!(matches!(acc.finish(), Err(ProbeError::EmptyStream)));
}
