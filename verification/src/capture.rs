use vstd::prelude::*;

use crate::error::SensorError;

verus! {

/// A pulse half is abandoned as timed out once its busy-wait counter reaches
/// this bound.
pub const MAX_PULSE_COUNT: u32 = 32000;

/// Number of low/high pulse pairs one reading produces: one acknowledgment
/// pair followed by 40 data pairs.
pub const PULSE_PAIRS: usize = 41;

/// Number of individual pulse counters: one low and one high counter per
/// pair.
pub const PULSE_SLOTS: usize = PULSE_PAIRS * 2;

/// The 82 pulse-duration counters of one completed capture, in temporal
/// order: slot `2*p` counts the low pulse of pair `p`, slot `2*p + 1` its
/// high pulse. Pair 0 is the sensor's acknowledgment and carries no data
/// bit.
///
/// Values of this type exist only for captures that ran to completion, so
/// every counter is strictly below [`MAX_PULSE_COUNT`].
pub struct PulseCounters {
    counts: Vec<u32>,
}

impl View for PulseCounters {
    type V = Seq<u32>;

    closed spec fn view(&self) -> Seq<u32> {
        self.counts@
    }
}

impl PulseCounters {
    /// Well-formedness: exactly [`PULSE_SLOTS`] counters, each strictly
    /// below the timeout bound.
    pub open spec fn wf(&self) -> bool {
        &&& self@.len() == PULSE_SLOTS
        &&& forall|k: int| 0 <= k < PULSE_SLOTS ==> self@[k] < MAX_PULSE_COUNT
    }

    /// Reads the counter in slot `i`.
    pub fn get(&self, i: usize) -> (c: u32)
        requires
            self.wf(),
            i < PULSE_SLOTS,
        ensures
            c == self@[i as int],
    {
        self.counts[i]
    }

    /// Builds a counter set directly from 82 values, each strictly below
    /// the timeout bound; anything else is no completed capture and is
    /// refused. The capture state machine is the usual producer; this
    /// constructor admits counters recorded by other means.
    pub fn from_counts(counts: Vec<u32>) -> (r: Option<PulseCounters>)
        ensures
            match r {
                Some(pc) => pc.wf() && pc@ == counts@,
                None => !(counts@.len() == PULSE_SLOTS
                    && forall|k: int| 0 <= k < PULSE_SLOTS ==> counts@[k] < MAX_PULSE_COUNT),
            },
    {
        if counts.len() != PULSE_SLOTS {
            return None;
        }
        let mut i: usize = 0;
        while i < PULSE_SLOTS
            invariant
                counts@.len() == PULSE_SLOTS,
                i <= PULSE_SLOTS,
                forall|k: int| 0 <= k < i ==> counts@[k] < MAX_PULSE_COUNT,
            decreases PULSE_SLOTS - i,
        {
            if counts[i] >= MAX_PULSE_COUNT {
                return None;
            }
            i = i + 1;
        }
        Some(PulseCounters { counts })
    }
}

/// The capture half of the protocol, as a state machine. After the
/// handshake has released the line, the caller polls the line level and
/// hands every sample to [`CaptureState::step`] until the machine reports
/// a completed capture or a timeout.
///
/// The machine walks the 82 counter slots in order. In an even slot it
/// counts consecutive low samples, in an odd slot consecutive high samples;
/// the first sample of the opposite level closes the slot and moves to the
/// next one. Closing the last slot completes the capture. A slot whose
/// counter reaches [`MAX_PULSE_COUNT`] aborts the capture as a timeout, so
/// threshold derivation and decoding are never reached for such a capture.
pub struct CaptureState {
    counts: Vec<u32>,
    idx: usize,
}

/// What one polled line-level sample did to the capture.
pub enum CaptureStep {
    /// The capture is still in progress; poll the line again.
    Continue(CaptureState),
    /// All 82 slots were closed; the counters are complete.
    Done(PulseCounters),
    /// A counter reached the maximum bound before its level transition.
    TimedOut(SensorError),
}

impl CaptureState {
    /// The counters recorded so far.
    pub closed spec fn counts(self) -> Seq<u32> {
        self.counts@
    }

    /// The slot currently being counted.
    pub closed spec fn slot(self) -> int {
        self.idx as int
    }

    /// Well-formedness: 82 counter slots, the current slot among them, and
    /// no counter at the timeout bound yet.
    pub open spec fn wf(self) -> bool {
        &&& self.counts().len() == PULSE_SLOTS
        &&& 0 <= self.slot() < PULSE_SLOTS
        &&& forall|k: int| 0 <= k < PULSE_SLOTS ==> self.counts()[k] < MAX_PULSE_COUNT
    }

    /// A fresh capture: every counter zero, waiting for the low pulse of
    /// the acknowledgment pair.
    pub fn new() -> (s: CaptureState)
        ensures
            s.wf(),
            s.slot() == 0,
            s.counts() =~= Seq::new(PULSE_SLOTS as nat, |k: int| 0u32),
    {
        let mut counts: Vec<u32> = Vec::new();
        let mut i: usize = 0;
        while i < PULSE_SLOTS
            invariant
                i <= PULSE_SLOTS,
                counts@.len() == i,
                forall|k: int| 0 <= k < i ==> counts@[k] == 0u32,
            decreases PULSE_SLOTS - i,
        {
            counts.push(0u32);
            i = i + 1;
        }
        CaptureState { counts, idx: 0 }
    }

    /// Feeds one polled line level into the capture.
    ///
    /// A sample at the level the current slot is counting (low in an even
    /// slot, high in an odd one) increments that slot's counter; when the
    /// counter thereby reaches [`MAX_PULSE_COUNT`], the capture aborts with
    /// `SensorError::Timeout`, naming the pulse half that overflowed. A
    /// sample at the opposite level closes the slot: the machine moves to
    /// the next slot, or reports the finished counters when the last slot
    /// was closed.
    pub fn step(self, level_high: bool) -> (r: CaptureStep)
        requires
            self.wf(),
        ensures
            ({
                let i = self.slot();
                let low_slot = i % 2 == 0;
                if level_high != low_slot {
                    // The sample matches the level the slot is counting.
                    if self.counts()[i] + 1 >= MAX_PULSE_COUNT {
                        &&& r matches CaptureStep::TimedOut(e)
                        &&& e matches SensorError::Timeout(m)
                        &&& low_slot ==> m@ == "timed out low pulse capture"@
                        &&& !low_slot ==> m@ == "timed out high pulse capture"@
                    } else {
                        &&& r matches CaptureStep::Continue(s)
                        &&& s.wf()
                        &&& s.slot() == i
                        &&& s.counts() == self.counts().update(i, (self.counts()[i] + 1) as u32)
                    }
                } else {
                    // The sample is at the opposite level: the slot closes.
                    if i == PULSE_SLOTS - 1 {
                        &&& r matches CaptureStep::Done(pc)
                        &&& pc.wf()
                        &&& pc@ == self.counts()
                    } else {
                        &&& r matches CaptureStep::Continue(s)
                        &&& s.wf()
                        &&& s.slot() == i + 1
                        &&& s.counts() == self.counts()
                    }
                }
            }),
    {
        let CaptureState { mut counts, idx } = self;
        let low_slot = idx % 2 == 0;
        if level_high != low_slot {
            let c = counts[idx] + 1;
            if c >= MAX_PULSE_COUNT {
                let m = if low_slot {
                    String::from_str("timed out low pulse capture")
                } else {
                    String::from_str("timed out high pulse capture")
                };
                CaptureStep::TimedOut(SensorError::Timeout(m))
            } else {
                counts[idx] = c;
                CaptureStep::Continue(CaptureState { counts, idx })
            }
        } else {
            if idx == PULSE_SLOTS - 1 {
                CaptureStep::Done(PulseCounters { counts })
            } else {
                CaptureStep::Continue(CaptureState { counts, idx: idx + 1 })
            }
        }
    }
}

} // verus!
