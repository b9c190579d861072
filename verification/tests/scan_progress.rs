use samplemap::scan::{is_wav_extension, ScanStatus};

#[test]
fn a_fresh_job_is_idle() {
    let s = ScanStatus::default();
    assert_eq!(s.stage, "idle");
    assert_eq!(s.processed, 0);
    assert_eq!(s.total, 0);
    assert!(!s.done);
    assert!(s.error.is_none());
}

#[test]
fn a_job_walks_its_stages() {
    let mut s = ScanStatus::default();
    s.begin_scan(3);
    assert_eq!(s.stage, "scanning");
    assert_eq!(s.total, 3);
    assert_eq!(s.processed, 0);
    s.record_processed();
    s.record_processed();
    assert_eq!(s.processed, 2);
    s.begin_embedding();
    assert_eq!(s.stage, "embedding");
    assert_eq!(s.processed, 2);
    s.finish();
    assert_eq!(s.stage, "done");
    assert!(s.done);
    assert!(s.error.is_none());
}

#[test]
fn a_failed_job_keeps_its_error() {
    let mut s = ScanStatus::default();
    s.begin_scan(1);
    s.fail("embedding failed: worker exited".to_owned());
    assert!(s.done);
    assert_eq!(s.error.as_deref(), Some("embedding failed: worker exited"));
    assert_eq!(s.stage, "scanning");
    s.finish();
    assert_eq!(s.stage, "done");
    assert_eq!(s.error.as_deref(), Some("embedding failed: worker exited"));
}

#[test]
fn wav_extensions_compare_without_letter_case() {
    assert!(is_wav_extension(b"wav"));
    assert!(is_wav_extension(b"WAV"));
    assert!(is_wav_extension(b"WaV"));
    assert!(!is_wav_extension(b"wa"));
    assert!(!is_wav_extension(b"wave"));
    assert!(!is_wav_extension(b"ogg"));
    assert!(!is_wav_extension(b""));
    assert!(!is_wav_extension(b"w4v"));
}
