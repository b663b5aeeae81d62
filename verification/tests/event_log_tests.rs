use gubtool::event_log::{EventLog, EventRecord, MAX_RECORDS};
use gubtool::slice_ops::SliceError;

fn ring_with(entries: &[(usize, u32, u8)]) -> Vec<u8> {
    let mut buf = vec![0u8; 0x1000];
    for &(slot, id, state) in entries {
        let off = slot * 5;
        buf[off..off + 4].copy_from_slice(&id.to_le_bytes());
        buf[off + 4] = state;
    }
    buf
}

fn ids(log: &EventLog) -> Vec<(u32, bool)> {
    log.entries().iter().map(|r| (r.event_id, r.state)).collect()
}

#[test]
fn record_read_at_offset() {
    let buf = ring_with(&[(1, 1234, 1)]);
    let r = EventRecord::read_at(&buf, 5, 77).unwrap();
    assert_eq!(r, EventRecord { event_id: 1234, state: true, time_stamp: 77 });
    assert_eq!(EventRecord::read_at(&buf[..7], 5, 0), Err(SliceError::ReadOutOfBounds));
}

#[test]
fn poll_reads_new_slots() {
    let mut log = EventLog::default();
    let buf = ring_with(&[(0, 10, 1), (1, 11, 0), (2, 12, 1)]);
    assert_eq!(log.poll(3, &buf, 5), Ok(()));
    assert_eq!(ids(&log), vec![(10, true), (11, false), (12, true)]);
    assert_eq!(log.read_index(), 3);
    assert!(log.entries().iter().all(|r| r.time_stamp == 5));
}

#[test]
fn poll_again_reads_nothing() {
    let mut log = EventLog::default();
    let buf = ring_with(&[(0, 10, 1)]);
    log.poll(1, &buf, 0).unwrap();
    log.poll(1, &buf, 0).unwrap();
    assert_eq!(ids(&log), vec![(10, true)]);
}

#[test]
fn repeated_state_hidden_unless_duplicates_shown() {
    let mut log = EventLog::default();
    let buf = ring_with(&[(0, 10, 1), (1, 10, 1), (2, 10, 0)]);
    log.poll(3, &buf, 0).unwrap();
    assert_eq!(ids(&log), vec![(10, true), (10, false)]);

    let mut shown = EventLog::default();
    shown.toggle_show_duplicates();
    assert!(shown.is_show_duplicates());
    shown.poll(3, &buf, 0).unwrap();
    assert_eq!(ids(&shown), vec![(10, true), (10, true), (10, false)]);
}

#[test]
fn ring_wraps_around() {
    let mut log = EventLog::default();
    // read index 0, write index 510: the 510 zeroed slots are read first
    log.poll(510, &ring_with(&[]), 0).unwrap();
    assert_eq!(ids(&log), vec![(0, false)]);
    let buf = ring_with(&[(510, 1, 1), (511, 2, 1), (0, 3, 1)]);
    log.poll(513, &buf, 0).unwrap();
    assert_eq!(ids(&log), vec![(0, false), (1, true), (2, true), (3, true)]);
    assert_eq!(log.read_index(), 513);
}

#[test]
fn short_buffer_fails_and_keeps_read_index() {
    let mut log = EventLog::default();
    let buf = ring_with(&[(0, 10, 1)]);
    assert_eq!(log.poll(2, &buf[..7], 0), Err(SliceError::ReadOutOfBounds));
    assert_eq!(ids(&log), vec![(10, true)]);
    assert_eq!(log.read_index(), 0);
}

#[test]
fn excluded_events_leave_and_stay_out() {
    let mut log = EventLog::default();
    let buf = ring_with(&[(0, 10, 1), (1, 11, 1), (2, 10, 0)]);
    log.poll(3, &buf, 0).unwrap();
    log.exclude(10);
    assert_eq!(ids(&log), vec![(11, true)]);
    assert_eq!(log.get_excluded(), &vec![10]);
    log.exclude(10);
    assert_eq!(log.get_excluded(), &vec![10]);
    let more = ring_with(&[(3, 10, 1), (4, 12, 1)]);
    log.poll(5, &more, 0).unwrap();
    assert_eq!(ids(&log), vec![(11, true), (12, true)]);
}

#[test]
fn clear_forgets_records_and_states() {
    let mut log = EventLog::default();
    let buf = ring_with(&[(0, 10, 1)]);
    log.poll(1, &buf, 0).unwrap();
    log.exclude(99);
    log.clear();
    assert!(log.entries().is_empty());
    assert_eq!(log.read_index(), 0);
    assert_eq!(log.get_excluded(), &vec![99]);
    log.poll(1, &buf, 0).unwrap();
    assert_eq!(ids(&log), vec![(10, true)]);
}

#[test]
fn log_stops_growing_past_its_limit() {
    let mut log = EventLog::default();
    let mut write: i32 = 0;
    let mut next_id: u32 = 0;
    while log.entries().len() <= MAX_RECORDS + 5 && write < 20_000 {
        let mut entries = Vec::new();
        for k in 0..500 {
            entries.push((((write + k) & 511) as usize, next_id, 1u8));
            next_id += 1;
        }
        let buf = ring_with(&entries);
        log.poll(write + 500, &buf, 0).unwrap();
        write += 500;
    }
    assert_eq!(log.entries().len(), MAX_RECORDS + 1);
}
