use inside_ogg::headers::{HeaderKind, HeaderPhase, HeaderScan, PhaseStep, ScanStep, SourcePoll};
use inside_ogg::ReadError;

#[test]
fn scan_takes_three_packets_of_first_stream() {
    let mut s = HeaderScan::new();
    assert_eq!(s.offer(Some(5)), Ok(ScanStep::Take(HeaderKind::Ident)));
    assert_eq!(s.stream_serial(), 5);
    assert_eq!(s.offer(Some(9)), Ok(ScanStep::Skip));
    assert_eq!(s.offer(Some(5)), Ok(ScanStep::Take(HeaderKind::Comment)));
    assert!(!s.is_complete());
    assert_eq!(s.offer(Some(9)), Ok(ScanStep::Skip));
    assert_eq!(s.offer(Some(5)), Ok(ScanStep::Take(HeaderKind::Setup)));
    assert!(s.is_complete());
    assert_eq!(s.stream_serial(), 5);
}

#[test]
fn scan_on_short_source_fails_with_end_of_stream() {
    let mut s = HeaderScan::new();
    assert_eq!(s.offer(Some(5)), Ok(ScanStep::Take(HeaderKind::Ident)));
    assert_eq!(s.offer(Some(9)), Ok(ScanStep::Skip));
    assert_eq!(s.offer(Some(5)), Ok(ScanStep::Take(HeaderKind::Comment)));
    assert_eq!(s.offer(None), Err(ReadError::EndOfPhysicalStream));

    let mut s = HeaderScan::new();
    assert_eq!(s.offer(None), Err(ReadError::EndOfPhysicalStream));
}

#[test]
fn phase_walks_through_headers() {
    let ph: HeaderPhase<&str, u32> = HeaderPhase::new();
    assert_eq!(ph.on_poll(SourcePoll::Pending), PhaseStep::Suspend);
    assert_eq!(ph.on_poll(SourcePoll::Ready), PhaseStep::Parse(HeaderKind::Ident));
    let ph = ph.with_ident("ident");
    assert_eq!(ph.ident(), Some(&"ident"));
    assert_eq!(ph.on_poll(SourcePoll::Pending), PhaseStep::Suspend);
    assert_eq!(ph.on_poll(SourcePoll::Ready), PhaseStep::Parse(HeaderKind::Comment));
    let ph = ph.with_ident("other");
    assert_eq!(ph.ident(), Some(&"ident"));
    let ph = ph.with_comment(42);
    assert_eq!(ph.on_poll(SourcePoll::Ready), PhaseStep::Parse(HeaderKind::Setup));
    assert_eq!(ph.ident(), Some(&"ident"));
    let (ph, hdrs) = ph.finish();
    assert_eq!(hdrs, Some(("ident", 42)));
    assert_eq!(ph.ident(), None);
    assert_eq!(ph.on_poll(SourcePoll::Ready), PhaseStep::Finished);
    assert_eq!(ph.on_poll(SourcePoll::Exhausted), PhaseStep::Finished);
}

#[test]
fn phase_fails_when_source_ends_early() {
    let ph: HeaderPhase<u8, u8> = HeaderPhase::new();
    assert_eq!(ph.on_poll(SourcePoll::Exhausted), PhaseStep::Fail(ReadError::EndOfPhysicalStream));
    let ph = ph.with_ident(1).with_comment(2);
    assert_eq!(ph.on_poll(SourcePoll::Exhausted), PhaseStep::Fail(ReadError::EndOfPhysicalStream));
}

#[test]
fn finish_before_setup_keeps_phase() {
    let ph: HeaderPhase<u8, u8> = HeaderPhase::new().with_ident(1);
    let (ph, hdrs) = ph.finish();
    assert_eq!(hdrs, None);
    assert_eq!(ph.ident(), Some(&1));
}
