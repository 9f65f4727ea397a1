//! The decisions of the capture loop: what one poll of the frame source
//! does to the counters, what the polled frame dissects to, and when the
//! capture statistics are due.

use vstd::prelude::*;
use vstd::slice::slice_subrange;
use crate::dissect::{dissect, spec_dissect, Dissection};

verus! {

/// The capture statistics are reported once in this many polls.
pub const REPORT_INTERVAL: u32 = 10000;

/// When a frame was captured.
#[derive(Clone, Copy, Debug, PartialEq, Eq, Hash, Structural)]
pub struct Timestamp {
    pub seconds: i64,
    pub microseconds: i64,
}

/// One link-layer frame as the frame source yields it. A captured length
/// that differs from the wire length is a capture anomaly: it is counted
/// and reported, and the frame is dissected all the same.
#[derive(Debug, PartialEq, Eq)]
pub struct RawFrame {
    pub data: Vec<u8>,
    pub wire_len: u32,
    pub captured_len: u32,
    pub timestamp: Timestamp,
}

/// The statistics that the frame source keeps of itself.
#[derive(Clone, Copy, Debug, PartialEq, Eq, Hash, Structural)]
pub struct CaptureStats {
    pub received: u32,
    pub dropped: u32,
    pub if_dropped: u32,
}

/// The counters of the capture loop. They start at zero and never
/// decrease; at the largest value they stay.
#[derive(Clone, Copy, Debug, PartialEq, Eq, Hash, Structural)]
pub struct Counters {
    bytes: u64,
    packets: u64,
    anomalies: u64,
}

/// The state of the capture loop between two polls.
#[derive(Clone, Copy, Debug)]
pub struct CaptureLoop {
    counters: Counters,
    since_report: u32,
    last_stats: Option<CaptureStats>,
}

/// What the loop is to do after one poll.
#[derive(Clone, Copy, Debug, PartialEq, Eq, Hash, Structural)]
pub struct Step {
    /// What the polled frame dissects to; `None` where the poll yielded
    /// no frame.
    pub dissection: Option<Dissection>,
    /// Whether the frame's captured length differs from its wire length,
    /// which is to be logged.
    pub anomaly: bool,
    /// Whether the capture statistics are to be sampled and logged now.
    pub report_due: bool,
}

/// What a sample of the capture statistics says.
#[derive(Clone, Copy, Debug, PartialEq, Eq, Hash, Structural)]
pub struct StatsReport {
    pub stats: CaptureStats,
    /// Whether more frames were dropped than at the previous sample: the
    /// consumer is too slow for the arrival rate.
    pub drops_increased: bool,
}

/// `a + b`, or the largest value where the sum does not fit.
pub open spec fn saturating_sum(a: u64, b: u64) -> u64 {
    if a + b > u64::MAX {
        u64::MAX
    } else {
        (a + b) as u64
    }
}

/// The position in the report cycle after one more poll.
pub open spec fn next_phase(since_report: u32) -> u32 {
    if since_report >= REPORT_INTERVAL - 1 {
        0
    } else {
        (since_report + 1) as u32
    }
}

impl RawFrame {
    /// The bytes that were captured: the first `captured_len` bytes of
    /// `data`, or all of `data` where it holds fewer.
    pub open spec fn captured_view(&self) -> Seq<u8> {
        if self.captured_len <= self.data@.len() {
            self.data@.take(self.captured_len as int)
        } else {
            self.data@
        }
    }

    /// Whether the captured length differs from the wire length.
    pub open spec fn spec_is_anomalous(&self) -> bool {
        self.captured_len != self.wire_len
    }

    /// The bytes that were captured.
    pub fn captured(&self) -> (bytes: &[u8])
        ensures
            bytes@ == self.captured_view(),
    {
        let all = self.data.as_slice();
        if self.captured_len as usize <= all.len() {
            slice_subrange(all, 0, self.captured_len as usize)
        } else {
            all
        }
    }

    /// Whether the captured length differs from the wire length.
    pub fn is_anomalous(&self) -> (anomalous: bool)
        ensures
            anomalous == self.spec_is_anomalous(),
    {
        self.captured_len != self.wire_len
    }
}

impl Counters {
    /// The bytes seen so far.
    pub closed spec fn spec_bytes(&self) -> u64 {
        self.bytes
    }

    /// The frames seen so far.
    pub closed spec fn spec_packets(&self) -> u64 {
        self.packets
    }

    /// The frames seen so far whose captured length differed from their
    /// wire length.
    pub closed spec fn spec_anomalies(&self) -> u64 {
        self.anomalies
    }

    /// The counters after one more frame of which `captured` bytes were
    /// captured.
    pub open spec fn counted(
        &self,
        after: &Counters,
        captured: nat,
        anomalous: bool,
    ) -> bool {
        &&& after.spec_packets() == saturating_sum(self.spec_packets(), 1)
        &&& after.spec_bytes() == (if captured <= u64::MAX {
            saturating_sum(self.spec_bytes(), captured as u64)
        } else {
            u64::MAX
        })
        &&& after.spec_anomalies() == (if anomalous {
            saturating_sum(self.spec_anomalies(), 1)
        } else {
            self.spec_anomalies()
        })
    }

    /// The counters at process start.
    pub fn new() -> (counters: Counters)
        ensures
            counters.spec_bytes() == 0,
            counters.spec_packets() == 0,
            counters.spec_anomalies() == 0,
    {
        Counters { bytes: 0, packets: 0, anomalies: 0 }
    }

    /// The bytes seen so far.
    pub fn bytes(&self) -> (n: u64)
        ensures
            n == self.spec_bytes(),
    {
        self.bytes
    }

    /// The frames seen so far.
    pub fn packets(&self) -> (n: u64)
        ensures
            n == self.spec_packets(),
    {
        self.packets
    }

    /// The frames seen so far whose captured length differed from their
    /// wire length.
    pub fn anomalies(&self) -> (n: u64)
        ensures
            n == self.spec_anomalies(),
    {
        self.anomalies
    }

    /// Counts one frame.
    pub fn count_frame(&mut self, captured: usize, anomalous: bool)
        ensures
            old(self).counted(final(self), captured as nat, anomalous),
            final(self).spec_bytes() >= old(self).spec_bytes(),
            final(self).spec_packets() >= old(self).spec_packets(),
            final(self).spec_anomalies() >= old(self).spec_anomalies(),
    {
        self.packets = self.packets.saturating_add(1);
        self.bytes = if captured as u128 <= u64::MAX as u128 {
            self.bytes.saturating_add(captured as u64)
        } else {
            u64::MAX
        };
        if anomalous {
            self.anomalies = self.anomalies.saturating_add(1);
        }
    }
}

impl CaptureLoop {
    /// The counters of the loop.
    pub closed spec fn spec_counters(&self) -> Counters {
        self.counters
    }

    /// How many polls have passed since the statistics were last due.
    pub closed spec fn spec_since_report(&self) -> u32 {
        self.since_report
    }

    /// The statistics of the latest sample, if there was one.
    pub closed spec fn spec_last_stats(&self) -> Option<CaptureStats> {
        self.last_stats
    }

    /// The loop before its first poll.
    pub fn new() -> (state: CaptureLoop)
        ensures
            state.spec_counters().spec_bytes() == 0,
            state.spec_counters().spec_packets() == 0,
            state.spec_counters().spec_anomalies() == 0,
            state.spec_since_report() == 0,
            state.spec_last_stats().is_none(),
    {
        CaptureLoop { counters: Counters::new(), since_report: 0, last_stats: None }
    }

    /// The counters of the loop.
    pub fn counters(&self) -> (counters: Counters)
        ensures
            counters == self.spec_counters(),
    {
        self.counters
    }

    /// Takes the result of one poll of the frame source. A poll that
    /// yielded no frame changes no counter. A frame is counted and
    /// dissected, whether or not its lengths agree, and is dissected from
    /// its captured bytes alone. Every `REPORT_INTERVAL`th poll, frame or
    /// not, makes the statistics due.
    pub fn step(&mut self, polled: Option<&RawFrame>) -> (step: Step)
        ensures
            final(self).spec_last_stats() == old(self).spec_last_stats(),
            final(self).spec_since_report() == next_phase(old(self).spec_since_report()),
            step.report_due == (final(self).spec_since_report() == 0),
            match polled {
                Some(frame) => {
                    &&& step.dissection == Some(spec_dissect(frame.captured_view()))
                    &&& step.dissection.unwrap().within(frame.captured_view().len())
                    &&& step.anomaly == frame.spec_is_anomalous()
                    &&& old(self).spec_counters().counted(
                        &final(self).spec_counters(),
                        frame.captured_view().len(),
                        frame.spec_is_anomalous(),
                    )
                },
                None => {
                    &&& step.dissection.is_none()
                    &&& !step.anomaly
                    &&& final(self).spec_counters() == old(self).spec_counters()
                },
            },
    {
        self.since_report = if self.since_report >= REPORT_INTERVAL - 1 {
            0
        } else {
            self.since_report + 1
        };
        let report_due = self.since_report == 0;
        match polled {
            Some(frame) => {
                let bytes = frame.captured();
                let anomaly = frame.is_anomalous();
                self.counters.count_frame(bytes.len(), anomaly);
                Step { dissection: Some(dissect(bytes)), anomaly, report_due }
            },
            None => Step { dissection: None, anomaly: false, report_due },
        }
    }

    /// Takes a sample of the capture statistics and tells whether more
    /// frames were dropped than at the sample before.
    pub fn sample(&mut self, stats: CaptureStats) -> (report: StatsReport)
        ensures
            final(self).spec_last_stats() == Some(stats),
            final(self).spec_counters() == old(self).spec_counters(),
            final(self).spec_since_report() == old(self).spec_since_report(),
            report.stats == stats,
            report.drops_increased == (match old(self).spec_last_stats() {
                Some(before) => stats.dropped > before.dropped || stats.if_dropped
                    > before.if_dropped,
                None => stats.dropped > 0 || stats.if_dropped > 0,
            }),
    {
        let drops_increased = match self.last_stats {
            Some(before) => stats.dropped > before.dropped || stats.if_dropped > before.if_dropped,
            None => stats.dropped > 0 || stats.if_dropped > 0,
        };
        self.last_stats = Some(stats);
        StatsReport { stats, drops_increased }
    }
}

// ---------------------------------------------------------------------
// What holds of every poll
// ---------------------------------------------------------------------

/// Two frames with the same captured bytes dissect alike, whatever lies
/// in their buffers past the captured length and whatever their wire
/// lengths are: nothing past the captured length is read.
pub proof fn lemma_only_captured_bytes_are_read(a: RawFrame, b: RawFrame)
    requires
        a.captured_view() == b.captured_view(),
    ensures
        spec_dissect(a.captured_view()) == spec_dissect(b.captured_view()),
{
}

/// A frame that was captured shorter than it was on the wire is an
/// anomaly, and its captured bytes are a prefix of its buffer that is no
/// longer than the captured length.
pub proof fn lemma_short_capture_is_anomalous(frame: RawFrame)
    requires
        frame.captured_len < frame.wire_len,
    ensures
        frame.spec_is_anomalous(),
        frame.captured_view().len() <= frame.captured_len,
        frame.captured_view().is_prefix_of(frame.data@),
{
}

/// From a position inside the report cycle, the statistics are due again
/// after exactly as many polls as the cycle has left.
pub proof fn lemma_report_cycle(since_report: u32)
    requires
        since_report < REPORT_INTERVAL,
    ensures
        next_phase(since_report) == (since_report + 1) % (REPORT_INTERVAL as int),
        next_phase(since_report) < REPORT_INTERVAL,
        next_phase(since_report) == 0 <==> since_report == REPORT_INTERVAL - 1,
{
}

} // verus!
