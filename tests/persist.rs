use humon::bounded::BoundedString;
use humon::capture::{get_task_info, trace_exit, trace_fork, trace_umount};
use humon::codec::encode;
use humon::event::Event;
use humon::framing::{event_record, frame, replay};

fn sample_events() -> Vec<Event> {
    let t = get_task_info((10u64 << 32) | 11, (5u64 << 32) | 6, 1_000);
    vec![trace_fork(&t, 12), trace_exit(&t, -1), trace_umount(&t, b"/mnt/usb", 2)]
}

#[test]
fn frame_has_little_endian_length_prefix() {
    assert_eq!(frame(&[9, 8, 7]), vec![3, 0, 0, 0, 9, 8, 7]);
    assert_eq!(frame(&[]), vec![0, 0, 0, 0]);
}

#[test]
fn replay_returns_appended_events_in_order() {
    let events = sample_events();
    let mut log: Vec<u8> = Vec::new();
    for e in &events {
        log.extend(event_record(e));
    }
    let r = replay(&log, 0);
    assert_eq!(r.events, events);
    assert_eq!(r.malformed, 0);
    assert_eq!(r.next_offset, log.len());
}

#[test]
fn replay_stops_before_incomplete_record() {
    let events = sample_events();
    let mut log: Vec<u8> = Vec::new();
    for e in &events {
        log.extend(event_record(e));
    }
    let complete = log.len();
    let partial = event_record(&events[0]);
    log.extend_from_slice(&partial[..partial.len() - 3]);
    let r = replay(&log, 0);
    assert_eq!(r.events, events);
    assert_eq!(r.malformed, 0);
    assert_eq!(r.next_offset, complete);
    log.extend_from_slice(&partial[partial.len() - 3..]);
    let resumed = replay(&log, r.next_offset);
    assert_eq!(resumed.events, vec![events[0]]);
    assert_eq!(resumed.next_offset, log.len());
}

#[test]
fn replay_with_only_part_of_a_length_prefix() {
    let mut log = event_record(&sample_events()[1]);
    let end = log.len();
    log.extend_from_slice(&[5, 0]);
    let r = replay(&log, 0);
    assert_eq!(r.events.len(), 1);
    assert_eq!(r.next_offset, end);
}

#[test]
fn replay_skips_a_record_that_does_not_decode() {
    let events = sample_events();
    let mut log = event_record(&events[0]);
    log.extend(frame(&[250, 1, 2]));
    log.extend(event_record(&events[2]));
    let r = replay(&log, 0);
    assert_eq!(r.events, vec![events[0], events[2]]);
    assert_eq!(r.malformed, 1);
    assert_eq!(r.next_offset, log.len());
}

#[test]
fn replay_of_empty_log() {
    let r = replay(&[], 0);
    assert!(r.events.is_empty());
    assert_eq!(r.next_offset, 0);
}

#[test]
fn record_is_frame_of_encoding() {
    let e = sample_events()[2];
    let payload = encode(&e);
    let mut expected = (payload.len() as u32).to_le_bytes().to_vec();
    expected.extend(&payload);
    assert_eq!(event_record(&e), expected);
    let name = BoundedString::<4096>::from_bytes(b"/mnt/usb");
    assert_eq!(name.as_bytes(), b"/mnt/usb");
}
