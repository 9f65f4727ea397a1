use flow_inspector::capture::{CaptureLoop, CaptureStats, Counters, RawFrame, Timestamp, REPORT_INTERVAL};
use flow_inspector::dissect::{dissect, Dissection, Layer};

fn udp_frame() -> Vec<u8> {
    let mut frame = vec![0x02, 0, 0, 0, 0, 1, 0x02, 0, 0, 0, 0, 2, 0x08, 0x00];
    frame.extend_from_slice(&[0x45, 0, 0, 32, 0, 0, 0, 0, 64, 17, 0, 0, 10, 0, 0, 5, 203, 0, 113, 9]);
    frame.extend_from_slice(&[0x30, 0x39, 0xd4, 0x31, 0, 12, 0, 0]);
    frame.extend_from_slice(b"test");
    frame
}

fn frame(data: Vec<u8>, wire_len: u32, captured_len: u32) -> RawFrame {
    RawFrame { data, wire_len, captured_len, timestamp: Timestamp { seconds: 1, microseconds: 2 } }
}

#[test]
fn frame_is_counted_and_dissected() {
    let mut state = CaptureLoop::new();
    let polled = frame(udp_frame(), 46, 46);
    let step = state.step(Some(&polled));
    assert_eq!(step.dissection, Some(dissect(&polled.data)));
    assert!(step.dissection.unwrap().flow().is_some());
    assert!(!step.anomaly);
    assert!(!step.report_due);
    assert_eq!(state.counters().packets(), 1);
    assert_eq!(state.counters().bytes(), 46);
    assert_eq!(state.counters().anomalies(), 0);
}

#[test]
fn short_capture_is_counted_as_an_anomaly_and_still_dissected() {
    let mut state = CaptureLoop::new();
    let polled = frame(udp_frame()[..40].to_vec(), 46, 40);
    assert!(polled.is_anomalous());
    let step = state.step(Some(&polled));
    assert!(step.anomaly);
    assert_eq!(step.dissection, Some(Dissection::Malformed(Layer::Udp)));
    assert_eq!(state.counters().anomalies(), 1);
    assert_eq!(state.counters().packets(), 1);
    assert_eq!(state.counters().bytes(), 40);
}

#[test]
fn bytes_past_the_captured_length_are_not_read() {
    let mut state = CaptureLoop::new();
    let polled = frame(udp_frame(), 46, 41);
    assert_eq!(polled.captured(), &udp_frame()[..41]);
    let step = state.step(Some(&polled));
    assert_eq!(step.dissection, Some(dissect(&udp_frame()[..41])));
    assert_eq!(step.dissection, Some(Dissection::Malformed(Layer::Udp)));
    assert_eq!(state.counters().bytes(), 41);

    let mut other = udp_frame();
    for byte in other[41..].iter_mut() {
        *byte = 0xff;
    }
    let mut second = CaptureLoop::new();
    assert_eq!(second.step(Some(&frame(other, 46, 41))).dissection, step.dissection);
}

#[test]
fn captured_length_beyond_the_buffer_takes_the_buffer() {
    let polled = frame(udp_frame(), 100, 100);
    assert_eq!(polled.captured(), &udp_frame()[..]);
    assert!(!polled.is_anomalous());
    let longer_on_wire = frame(udp_frame(), 46, 60);
    assert!(longer_on_wire.is_anomalous());
    assert_eq!(longer_on_wire.captured().len(), 46);
}

#[test]
fn idle_poll_changes_no_counter() {
    let mut state = CaptureLoop::new();
    let step = state.step(None);
    assert_eq!(step.dissection, None);
    assert!(!step.anomaly);
    assert_eq!(state.counters(), Counters::new());
}

#[test]
fn statistics_are_due_every_ten_thousandth_poll() {
    assert_eq!(REPORT_INTERVAL, 10000);
    let mut state = CaptureLoop::new();
    let polled = frame(udp_frame(), 46, 46);
    let mut due_at = Vec::new();
    for poll in 1..=30_000u32 {
        let step = if poll % 3 == 0 { state.step(None) } else { state.step(Some(&polled)) };
        if step.report_due {
            due_at.push(poll);
        }
    }
    assert_eq!(due_at, vec![10_000, 20_000, 30_000]);
    assert_eq!(state.counters().packets(), 20_000);
    assert_eq!(state.counters().bytes(), 920_000);
}

#[test]
fn counters_count_and_stay_at_the_top() {
    let mut counters = Counters::new();
    counters.count_frame(1500, false);
    counters.count_frame(60, true);
    assert_eq!(counters.bytes(), 1560);
    assert_eq!(counters.packets(), 2);
    assert_eq!(counters.anomalies(), 1);
    counters.count_frame(usize::MAX, true);
    counters.count_frame(usize::MAX, false);
    counters.count_frame(1, false);
    assert_eq!(counters.bytes(), u64::MAX);
    assert_eq!(counters.packets(), 5);
    assert_eq!(counters.anomalies(), 2);
}

#[test]
fn rising_drop_counts_are_reported() {
    let mut state = CaptureLoop::new();
    let quiet = CaptureStats { received: 10, dropped: 0, if_dropped: 0 };
    let report = state.sample(quiet);
    assert_eq!(report.stats, quiet);
    assert!(!report.drops_increased);
    let dropping = CaptureStats { received: 20, dropped: 3, if_dropped: 0 };
    assert!(state.sample(dropping).drops_increased);
    assert!(!state.sample(CaptureStats { received: 30, dropped: 3, if_dropped: 0 }).drops_increased);
    assert!(state.sample(CaptureStats { received: 40, dropped: 3, if_dropped: 1 }).drops_increased);
    let mut fresh = CaptureLoop::new();
    assert!(fresh.sample(CaptureStats { received: 1, dropped: 0, if_dropped: 2 }).drops_increased);
}
