use log_store::events::get_log_events;
use log_store::ingest::{create_log_event, created_response};
use log_store::page::Pagination;
use log_store::record::{Log, LogEventRequest};
use log_store::rotation::EventLogSegment;

fn record(device: &str) -> Log {
    Log {
        location_id: "L1".to_string(),
        device_id: device.to_string(),
        log_level: 2,
        log_type: "info".to_string(),
        log_message: "startup complete".to_string(),
    }
}

fn request() -> LogEventRequest {
    LogEventRequest {
        location_id: "L1".to_string(),
        device_id: "D1".to_string(),
        log_level: 2,
        log_type: "info".to_string(),
        log_message: "startup complete".to_string(),
    }
}

#[test]
fn posted_record_is_newest_entry() {
    let mut seg = EventLogSegment::resume("3 MB", 0, 0).unwrap();
    let ingest = create_log_event(request(), &mut seg).ok().unwrap();
    assert!(!ingest.plan.rotate);
    let segment = ingest.line.clone();
    let ev = get_log_events(&segment, &Pagination { offset: 1, limit: 10 }).ok().unwrap();
    assert_eq!(ev.status, 200);
    assert_eq!(ev.size, 1);
    assert_eq!(ev.limit, 10);
    assert_eq!(ev.offset, 1);
    // A one-record segment: offset 1 reaches its length, so the page is empty.
    assert!(ev.data.is_empty());
    let back = Log::from_str(segment.trim_end()).ok().unwrap();
    assert_eq!(back.device_id, "D1");
    assert_eq!(back.location_id, "L1");
    assert_eq!(back.log_level, 2);
    assert_eq!(back.log_type, "info");
    assert_eq!(back.log_message, "startup complete");
}

#[test]
fn listing_is_newest_first() {
    let mut segment = String::new();
    for d in ["D1", "D2", "D3"] {
        segment.push_str(&record(d).to_line());
        segment.push('\n');
    }
    let ev = get_log_events(&segment, &Pagination { offset: 1, limit: 10 }).ok().unwrap();
    assert_eq!(ev.size, 3);
    let devices: Vec<&str> = ev.data.iter().map(|l| l.device_id.as_str()).collect();
    assert_eq!(devices, vec!["D3", "D2", "D1"]);
    let ev = get_log_events(&segment, &Pagination { offset: 2, limit: 1 }).ok().unwrap();
    let devices: Vec<&str> = ev.data.iter().map(|l| l.device_id.as_str()).collect();
    assert_eq!(devices, vec!["D2"]);
}

#[test]
fn listing_rejects_offset_zero() {
    let e = get_log_events("", &Pagination { offset: 0, limit: 10 }).err().unwrap();
    assert_eq!(e.status, "400 Bad Request");
    assert_eq!(e.error, "offset");
}

#[test]
fn listing_fails_on_bad_line() {
    let mut segment = record("D1").to_line();
    segment.push_str("\n{\"device_id\":\"D2\"}\n");
    let e = get_log_events(&segment, &Pagination { offset: 1, limit: 10 }).err().unwrap();
    assert_eq!(e.status, "500 Internal Server Error");
    assert_eq!(e.error, "{\"device_id\":\"D2\"}");
}

#[test]
fn listing_empty_segment() {
    let ev = get_log_events("", &Pagination { offset: 1, limit: 10 }).ok().unwrap();
    assert_eq!(ev.size, 0);
    assert!(ev.data.is_empty());
}

#[test]
fn create_refuses_invalid_body() {
    let mut seg = EventLogSegment::resume("3 MB", 17, 2).unwrap();
    let mut body = request();
    body.log_type = "fatal".to_string();
    let e = create_log_event(body, &mut seg).err().unwrap();
    assert_eq!(e.status, "400 Bad Request");
    assert_eq!(e.error, "log_type");
    assert_eq!(seg.size, 17);
    assert_eq!(seg.rotations, 2);
}

#[test]
fn create_line_ends_with_break() {
    let mut seg = EventLogSegment::resume("3 MB", 0, 0).unwrap();
    let ingest = create_log_event(request(), &mut seg).ok().unwrap();
    assert!(ingest.line.ends_with('\n'));
    assert_eq!(ingest.len as usize, ingest.line.len());
    assert_eq!(seg.size, ingest.len);
}

#[test]
fn create_refuses_record_over_threshold() {
    let mut seg = EventLogSegment::resume("10 B", 0, 0).unwrap();
    let e = create_log_event(request(), &mut seg).err().unwrap();
    assert_eq!(e.status, "413 Payload Too Large");
    assert_eq!(seg.size, 0);
}

#[test]
fn created_reply() {
    let r = created_response();
    assert_eq!(r.status, 200);
    assert_eq!(r.message, "Data Logged Successfully!");
}

#[test]
fn create_line_is_record_json() {
    let mut seg = EventLogSegment::resume("3 MB", 0, 0).unwrap();
    let ingest = create_log_event(request(), &mut seg).ok().unwrap();
    assert_eq!(
        ingest.line,
        "{\"device_id\":\"D1\",\"location_id\":\"L1\",\"log_level\":2,\"log_message\":\"startup complete\",\"log_type\":\"info\"}\n"
    );
}

#[test]
fn create_rotates_when_threshold_passed() {
    let mut seg = EventLogSegment::resume("250 B", 0, 0).unwrap();
    let first = create_log_event(request(), &mut seg).ok().unwrap();
    let n = first.len;
    assert!(!first.plan.rotate);
    let second = create_log_event(request(), &mut seg).ok().unwrap();
    assert!(!second.plan.rotate);
    assert_eq!(seg.size, 2 * n);
    let third = create_log_event(request(), &mut seg).ok().unwrap();
    assert!(third.plan.rotate);
    assert_eq!(third.plan.shift, 0);
    assert_eq!(third.plan.discard, None);
    assert_eq!(seg.size, n);
    assert_eq!(seg.rotations, 1);
}
