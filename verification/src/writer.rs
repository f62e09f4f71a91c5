//! Throughput accounting for the replay writer thread: counts of replays
//! and samples consumed, and a fixed wall-clock interval at which a
//! telemetry report is owed.  The clock readings come in from the
//! environment; the arithmetic here is exact fixed-point (thousandths).

use vstd::prelude::*;

verus! {

/// The largest count the meter accepts, so that the fixed-point rate
/// arithmetic stays inside `u64`.
pub const COUNT_CAP: u64 = 0x10000000000;

/// The running totals of the writer thread since it started.
#[derive(Clone, Copy, PartialEq, Eq, Structural, Debug)]
pub struct ThroughputMeter {
    pub start_millis: u64,
    pub interval_millis: u64,
    pub next_millis: u64,
    pub replay_count: u64,
    pub sample_count: u64,
}

/// One telemetry report: the elapsed time, the totals, and the derived
/// rates in thousandths per second.
#[derive(Clone, Copy, PartialEq, Eq, Structural, Debug)]
pub struct ThroughputReport {
    pub elapsed_millis: u64,
    pub replay_count: u64,
    pub sample_count: u64,
    pub replays_per_sec_milli: u64,
    pub samples_per_sec_milli: u64,
}

impl ThroughputMeter {
    /// The meter's invariant: a positive interval, the next deadline at
    /// least one interval past the start, and counts under the cap.
    pub open spec fn wf(self) -> bool {
        &&& self.interval_millis > 0
        &&& self.start_millis + self.interval_millis <= self.next_millis
        &&& self.replay_count < COUNT_CAP
        &&& self.sample_count < COUNT_CAP
    }

    /// A meter started now, owing its first report one interval later.
    pub fn new(start_millis: u64, interval_millis: u64) -> (m: ThroughputMeter)
        requires
            interval_millis > 0,
            start_millis + interval_millis <= u64::MAX,
        ensures
            m.wf(),
            m.start_millis == start_millis,
            m.interval_millis == interval_millis,
            m.next_millis == start_millis + interval_millis,
            m.replay_count == 0,
            m.sample_count == 0,
    {
        ThroughputMeter {
            start_millis,
            interval_millis,
            next_millis: start_millis + interval_millis,
            replay_count: 0,
            sample_count: 0,
        }
    }

    /// Record one consumed replay and its number of samples.
    pub fn record(&mut self, samples: usize)
        requires
            old(self).wf(),
            old(self).replay_count + 1 < COUNT_CAP,
            old(self).sample_count + samples < COUNT_CAP,
        ensures
            final(self).wf(),
            final(self).replay_count == old(self).replay_count + 1,
            final(self).sample_count == old(self).sample_count + samples,
            final(self).start_millis == old(self).start_millis,
            final(self).interval_millis == old(self).interval_millis,
            final(self).next_millis == old(self).next_millis,
    {
        self.replay_count = self.replay_count + 1;
        self.sample_count = self.sample_count + samples as u64;
    }

    /// Ask whether a report is owed at this clock reading: one is owed
    /// exactly when the deadline has passed, and then the next deadline
    /// moves one interval on.  The rates are the totals per second since
    /// the start, in thousandths.
    pub fn tick(&mut self, now_millis: u64) -> (r: Option<ThroughputReport>)
        requires
            old(self).wf(),
            old(self).next_millis + old(self).interval_millis <= u64::MAX,
        ensures
            final(self).wf(),
            final(self).replay_count == old(self).replay_count,
            final(self).sample_count == old(self).sample_count,
            final(self).start_millis == old(self).start_millis,
            final(self).interval_millis == old(self).interval_millis,
            r is Some <==> now_millis >= old(self).next_millis,
            r is None ==> *final(self) == *old(self),
            r matches Some(rep) ==> {
                &&& final(self).next_millis == old(self).next_millis + old(self).interval_millis
                &&& rep.elapsed_millis == now_millis - old(self).start_millis
                &&& rep.replay_count == old(self).replay_count
                &&& rep.sample_count == old(self).sample_count
                &&& rep.replays_per_sec_milli == old(self).replay_count * 1000000 / (
                rep.elapsed_millis as int)
                &&& rep.samples_per_sec_milli == old(self).sample_count * 1000000 / (
                rep.elapsed_millis as int)
            },
    {
        if now_millis < self.next_millis {
            return None;
        }
        let elapsed = now_millis - self.start_millis;
        let rep = ThroughputReport {
            elapsed_millis: elapsed,
            replay_count: self.replay_count,
            sample_count: self.sample_count,
            replays_per_sec_milli: self.replay_count * 1000000 / elapsed,
            samples_per_sec_milli: self.sample_count * 1000000 / elapsed,
        };
        self.next_millis = self.next_millis + self.interval_millis;
        Some(rep)
    }
}

} // verus!
