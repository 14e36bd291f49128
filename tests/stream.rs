use inside_ogg::{Action, PacketInfo, Phase, ReadError, StreamTracker};

fn pkt(serial: u32, absgp: u64) -> PacketInfo {
    PacketInfo { serial, absgp, first_in_stream: false, last_in_stream: false, last_in_page: false }
}

fn page_end(serial: u32, absgp: u64) -> PacketInfo {
    PacketInfo { last_in_page: true, ..pkt(serial, absgp) }
}

#[test]
fn single_stream_yields_each_packet() {
    let mut t = StreamTracker::new(7);
    for i in 0..5u64 {
        assert_eq!(t.on_packet(Some(pkt(7, i))), Ok(Action::Decode));
        t.complete_unit(&pkt(7, i), 64);
    }
    assert_eq!(t.on_packet(None), Ok(Action::Finish));
    assert_eq!(t.stream_serial(), 7);
}

#[test]
fn last_unit_is_cut_to_page_granule() {
    let mut t = StreamTracker::new(3);
    let first = page_end(3, 1000);
    assert_eq!(t.on_packet(Some(first)), Ok(Action::Decode));
    assert_eq!(t.complete_unit(&first, 100), 100);
    assert_eq!(t.get_last_absgp(), Some(1000));
    let last = PacketInfo { last_in_stream: true, ..page_end(3, 1300) };
    assert_eq!(t.on_packet(Some(last)), Ok(Action::Decode));
    assert_eq!(t.complete_unit(&last, 512), 300);
    assert_eq!(t.get_last_absgp(), Some(1300));
}

#[test]
fn last_unit_behind_known_granule_is_empty() {
    let mut t = StreamTracker::new(3);
    t.complete_unit(&page_end(3, 2000), 10);
    let last = PacketInfo { last_in_stream: true, ..page_end(3, 1500) };
    assert_eq!(t.complete_unit(&last, 512), 0);
}

#[test]
fn last_unit_shorter_than_target_is_kept_whole() {
    let mut t = StreamTracker::new(3);
    t.complete_unit(&page_end(3, 1000), 10);
    let last = PacketInfo { last_in_stream: true, ..page_end(3, 2000) };
    assert_eq!(t.complete_unit(&last, 256), 256);
}

#[test]
fn no_truncation_without_known_granule() {
    let mut t = StreamTracker::new(3);
    let last = PacketInfo { last_in_stream: true, ..page_end(3, 10) };
    assert_eq!(t.complete_unit(&last, 256), 256);
}

#[test]
fn granule_known_only_after_page_boundary() {
    let mut t = StreamTracker::new(1);
    assert_eq!(t.get_last_absgp(), None);
    t.complete_unit(&pkt(1, 500), 128);
    assert_eq!(t.get_last_absgp(), None);
    t.complete_unit(&page_end(1, 500), 128);
    assert_eq!(t.get_last_absgp(), Some(500));
    t.complete_unit(&pkt(1, 900), 128);
    assert_eq!(t.get_last_absgp(), Some(628));
    t.complete_unit(&pkt(1, 900), 128);
    assert_eq!(t.get_last_absgp(), Some(756));
    t.complete_unit(&page_end(1, 900), 128);
    assert_eq!(t.get_last_absgp(), Some(900));
}

#[test]
fn running_estimate_saturates() {
    let mut t = StreamTracker::new(1);
    t.complete_unit(&page_end(1, u64::MAX - 10), 1);
    t.complete_unit(&pkt(1, 0), 100);
    assert_eq!(t.get_last_absgp(), Some(u64::MAX));
}

#[test]
fn seek_forgets_granule() {
    let mut t = StreamTracker::new(1);
    t.complete_unit(&page_end(1, 4096), 128);
    assert_eq!(t.get_last_absgp(), Some(4096));
    t.reset_after_seek();
    assert_eq!(t.get_last_absgp(), None);
    assert_eq!(t.phase(), Phase::Normal);
    assert_eq!(t.stream_serial(), 1);
    assert_eq!(t.on_packet(Some(pkt(1, 8192))), Ok(Action::Decode));
}

#[test]
fn chained_stream_is_followed() {
    let mut t = StreamTracker::new(1);
    assert_eq!(t.on_packet(Some(page_end(1, 100))), Ok(Action::Decode));
    t.complete_unit(&page_end(1, 100), 100);
    let a_end = PacketInfo { last_in_stream: true, ..page_end(1, 150) };
    assert_eq!(t.on_packet(Some(a_end)), Ok(Action::Decode));
    assert_eq!(t.complete_unit(&a_end, 128), 50);
    let ident = PacketInfo { first_in_stream: true, ..page_end(2, 0) };
    assert_eq!(t.on_packet(Some(ident)), Ok(Action::ParseIdent));
    assert_eq!(t.stream_serial(), 1);
    assert_eq!(t.on_packet(Some(pkt(2, 0))), Ok(Action::ParseComment));
    assert_eq!(t.on_packet(Some(page_end(2, 0))), Ok(Action::ParseSetup));
    assert_eq!(t.stream_serial(), 1);
    t.commit_headers();
    assert_eq!(t.stream_serial(), 2);
    assert_eq!(t.get_last_absgp(), None);
    assert_eq!(t.on_packet(Some(pkt(2, 700))), Ok(Action::Prime));
    assert_eq!(t.get_last_absgp(), None);
    assert_eq!(t.on_packet(Some(pkt(2, 700))), Ok(Action::Decode));
    assert_eq!(t.on_packet(Some(page_end(2, 700))), Ok(Action::Decode));
    assert_eq!(t.on_packet(None), Ok(Action::Finish));
}

#[test]
fn primed_packet_at_page_end_sets_granule() {
    let mut t = StreamTracker::new(1);
    let ident = PacketInfo { first_in_stream: true, ..pkt(2, 0) };
    assert_eq!(t.on_packet(Some(ident)), Ok(Action::ParseIdent));
    assert_eq!(t.on_packet(Some(pkt(2, 0))), Ok(Action::ParseComment));
    assert_eq!(t.on_packet(Some(pkt(2, 0))), Ok(Action::ParseSetup));
    t.commit_headers();
    assert_eq!(t.on_packet(Some(page_end(2, 320))), Ok(Action::Prime));
    assert_eq!(t.get_last_absgp(), Some(320));
}

#[test]
fn foreign_packets_are_skipped() {
    let mut t = StreamTracker::new(1);
    t.complete_unit(&page_end(1, 64), 64);
    assert_eq!(t.on_packet(Some(pkt(9, 5000))), Ok(Action::Skip));
    assert_eq!(t.on_packet(Some(page_end(9, 6000))), Ok(Action::Skip));
    assert_eq!(t.stream_serial(), 1);
    assert_eq!(t.get_last_absgp(), Some(64));
    assert_eq!(t.on_packet(Some(pkt(1, 128))), Ok(Action::Decode));
}

#[test]
fn end_inside_chain_headers_is_an_error() {
    let mut t = StreamTracker::new(1);
    let ident = PacketInfo { first_in_stream: true, ..pkt(2, 0) };
    assert_eq!(t.on_packet(Some(ident)), Ok(Action::ParseIdent));
    assert_eq!(t.on_packet(None), Err(ReadError::EndOfPhysicalStream));
    assert_eq!(t.stream_serial(), 1);

    let mut t = StreamTracker::new(1);
    t.on_packet(Some(ident)).unwrap();
    t.on_packet(Some(pkt(2, 0))).unwrap();
    assert_eq!(t.on_packet(None), Err(ReadError::EndOfPhysicalStream));
}

#[test]
fn end_before_priming_ends_the_stream() {
    let mut t = StreamTracker::new(1);
    let ident = PacketInfo { first_in_stream: true, ..pkt(2, 0) };
    t.on_packet(Some(ident)).unwrap();
    t.on_packet(Some(pkt(2, 0))).unwrap();
    t.on_packet(Some(pkt(2, 0))).unwrap();
    t.commit_headers();
    assert_eq!(t.on_packet(None), Ok(Action::Finish));
    assert_eq!(t.stream_serial(), 2);
    assert_eq!(t.on_packet(Some(pkt(2, 10))), Ok(Action::Decode));
}

#[test]
fn foreign_packets_inside_chain_transition_are_skipped() {
    let mut t = StreamTracker::new(1);
    let ident = PacketInfo { first_in_stream: true, ..pkt(2, 0) };
    assert_eq!(t.on_packet(Some(ident)), Ok(Action::ParseIdent));
    assert_eq!(t.on_packet(Some(pkt(9, 0))), Ok(Action::Skip));
    assert_eq!(t.on_packet(Some(pkt(1, 50))), Ok(Action::Skip));
    assert_eq!(t.on_packet(Some(pkt(2, 0))), Ok(Action::ParseComment));
    assert_eq!(t.on_packet(Some(page_end(9, 0))), Ok(Action::Skip));
    assert_eq!(t.on_packet(Some(pkt(2, 0))), Ok(Action::ParseSetup));
    t.commit_headers();
    assert_eq!(t.on_packet(Some(pkt(9, 700))), Ok(Action::Skip));
    assert_eq!(t.on_packet(Some(pkt(2, 700))), Ok(Action::Prime));
    assert_eq!(t.on_packet(Some(pkt(9, 700))), Ok(Action::Skip));
    assert_eq!(t.on_packet(Some(pkt(1, 700))), Ok(Action::Skip));
    assert_eq!(t.on_packet(Some(pkt(2, 700))), Ok(Action::Decode));
    assert_eq!(t.stream_serial(), 2);
}

#[test]
fn failed_setup_parse_keeps_old_stream() {
    let mut t = StreamTracker::new(1);
    t.complete_unit(&page_end(1, 640), 64);
    let ident = PacketInfo { first_in_stream: true, ..pkt(2, 0) };
    t.on_packet(Some(ident)).unwrap();
    t.on_packet(Some(pkt(2, 0))).unwrap();
    assert_eq!(t.on_packet(Some(pkt(2, 0))), Ok(Action::ParseSetup));
    assert_eq!(t.stream_serial(), 1);
    assert_eq!(t.get_last_absgp(), Some(640));
    assert_eq!(t.phase(), Phase::AwaitSetup);
    assert_eq!(t.on_packet(Some(pkt(2, 0))), Ok(Action::ParseSetup));
}

#[test]
fn commit_outside_setup_changes_nothing() {
    let mut t = StreamTracker::new(4);
    t.complete_unit(&page_end(4, 90), 10);
    t.commit_headers();
    assert_eq!(t.stream_serial(), 4);
    assert_eq!(t.get_last_absgp(), Some(90));
    assert_eq!(t.phase(), Phase::Normal);
}

#[test]
fn new_stream_may_start_right_after_headers() {
    let mut t = StreamTracker::new(1);
    let ident2 = PacketInfo { first_in_stream: true, ..pkt(2, 0) };
    t.on_packet(Some(ident2)).unwrap();
    t.on_packet(Some(pkt(2, 0))).unwrap();
    t.on_packet(Some(pkt(2, 0))).unwrap();
    t.commit_headers();
    let ident3 = PacketInfo { first_in_stream: true, ..pkt(3, 0) };
    assert_eq!(t.on_packet(Some(ident3)), Ok(Action::ParseIdent));
    assert_eq!(t.stream_serial(), 2);
}
