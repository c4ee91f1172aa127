//! The engine clock: wall time elapsed since start and since the last
//! update, sampled once per frame.
//!
//! The clock itself does not read the wall time; the caller samples a
//! monotonic source and hands the reading in as a count of
//! microseconds.  Since one micro-unit of a fixed-point scalar is one
//! millionth, a delta in microseconds is numerically the delta in
//! seconds in micro-units.

use vstd::prelude::*;

verus! {

/// The clock resource: start time, the last sample if any, and the
/// delta between the two most recent samples, all in microseconds.
#[derive(Clone, Copy, Debug, PartialEq, Eq, Structural)]
pub struct Time {
    pub start_us: u64,
    pub last_update_us: Option<u64>,
    pub delta_us: u64,
}

/// The recorded sample never precedes the start of the run.
pub open spec fn time_wf(t: Time) -> bool {
    match t.last_update_us {
        Some(l) => l >= t.start_us,
        None => true,
    }
}

/// The sample against which the next delta is measured: the last
/// update, or the start of the run before any update.
pub open spec fn reference_point(t: Time) -> u64 {
    match t.last_update_us {
        Some(l) => l,
        None => t.start_us,
    }
}

/// What one update does: record the sample and measure the delta from
/// the previous reference point.
pub open spec fn spec_advance(t: Time, now_us: u64) -> Time {
    Time {
        start_us: t.start_us,
        last_update_us: Some(now_us),
        delta_us: (now_us - reference_point(t)) as u64,
    }
}

impl Time {
    /// A clock started at the given sample of the wall time.
    pub fn new(now_us: u64) -> (r: Time)
        ensures
            r == (Time { start_us: now_us, last_update_us: None, delta_us: 0u64 }),
            time_wf(r),
    {
        Time { start_us: now_us, last_update_us: None, delta_us: 0 }
    }

    /// Records the current sample of the wall time and computes the
    /// delta since the previous one, or since the start of the run if
    /// this is the first update.
    pub fn update(&mut self, now_us: u64)
        requires
            time_wf(*old(self)),
            now_us >= reference_point(*old(self)),
        ensures
            *final(self) == spec_advance(*old(self), now_us),
            final(self).delta_us == now_us - reference_point(*old(self)),
            time_wf(*final(self)),
    {
        match self.last_update_us {
            Some(last) => {
                self.delta_us = now_us - last;
            },
            None => {
                self.delta_us = now_us - self.start_us;
            },
        }
        self.last_update_us = Some(now_us);
    }
}

impl Default for Time {
    /// A clock whose run began at the zero of the time source.
    fn default() -> (r: Time)
        ensures
            r == (Time { start_us: 0u64, last_update_us: None::<u64>, delta_us: 0u64 }),
    {
        Time { start_us: 0, last_update_us: None, delta_us: 0 }
    }
}

/// The clock system: one update per frame, in the ingest stage.
pub fn time_system(time: &mut Time, now_us: u64)
    requires
        time_wf(*old(time)),
        now_us >= reference_point(*old(time)),
    ensures
        *final(time) == spec_advance(*old(time), now_us),
{
    time.update(now_us);
}

/// The clock after a whole run of updates, one per frame.
pub open spec fn advance_all(t: Time, samples: Seq<u64>) -> Time
    decreases samples.len(),
{
    if samples.len() == 0 {
        t
    } else {
        advance_all(spec_advance(t, samples[0]), samples.drop_first())
    }
}

/// Samples are admissible when each is no earlier than the reference
/// point it will be measured against.
pub open spec fn samples_ok(t: Time, samples: Seq<u64>) -> bool
    decreases samples.len(),
{
    samples.len() == 0 || (samples[0] >= reference_point(t) && samples_ok(
        spec_advance(t, samples[0]),
        samples.drop_first(),
    ))
}

/// Law of the clock: over any admissible run of updates the delta is
/// never negative, the first update's delta is exactly the time
/// elapsed since construction, and the start of the run is never
/// reset.
pub proof fn lemma_clock_run(t: Time, samples: Seq<u64>)
    requires
        time_wf(t),
        samples_ok(t, samples),
    ensures
        advance_all(t, samples).delta_us >= 0,
        samples.len() > 0 && t.last_update_us is None ==> spec_advance(t, samples[0]).delta_us
            == samples[0] - t.start_us,
        advance_all(t, samples).start_us == t.start_us,
        time_wf(advance_all(t, samples)),
    decreases samples.len(),
{
    if samples.len() > 0 {
        lemma_clock_run(spec_advance(t, samples[0]), samples.drop_first());
    }
}

} // verus!
