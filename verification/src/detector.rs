//! The stateful peak detector: window bookkeeping and classification.

use vstd::prelude::*;

verus! {

/// Classification of an observation that strayed beyond the detection
/// threshold: `High` when it lay above the current window mean, `Low` when it
/// lay below. There is no non-peak variant; an observation that stays within
/// the threshold receives no classification at all.
#[derive(Clone, Copy, PartialEq, Eq, Structural, Debug)]
pub enum Peak {
    Low,
    High,
}

/// The caller's judgement of one observation against the current window
/// statistics. The detector stores observations as opaque 64-bit words and
/// never interprets them numerically; the caller, who owns the numeric
/// interpretation, reports here whether the observation strayed more than
/// `threshold` standard deviations from the window mean (`is_peak`), whether
/// it lay above the mean (`is_high`), and the dampened replacement word
/// (`value * influence + (1 - influence) * trailing window value`) that a
/// detected peak contributes to the window in place of its raw value
/// (`smoothed`).
#[derive(Clone, Copy, PartialEq, Eq, Structural, Debug)]
pub struct Decision {
    pub is_peak: bool,
    pub is_high: bool,
    pub smoothed: u64,
}

/// The window after one observation: while the window is below capacity the
/// observation enters unchanged; at capacity the oldest value leaves and
/// either the dampened replacement (on a peak) or the raw observation enters;
/// with zero capacity the window stays empty.
pub open spec fn step_window(w: Seq<u64>, lag: nat, value: u64, decision: Decision) -> Seq<u64> {
    if w.len() < lag {
        w.push(value)
    } else if lag > 0 {
        w.drop_first().push(if decision.is_peak {
            decision.smoothed
        } else {
            value
        })
    } else {
        w
    }
}

/// The classification returned for one observation: none while the window is
/// below capacity or the capacity is zero; otherwise `High` or `Low` exactly
/// when the caller judged the observation a peak, by whether it lay above the
/// mean.
pub open spec fn step_signal(w: Seq<u64>, lag: nat, decision: Decision) -> Option<Peak> {
    if w.len() < lag || lag == 0 {
        None
    } else if decision.is_peak {
        Some(
            if decision.is_high {
                Peak::High
            } else {
                Peak::Low
            },
        )
    } else {
        None
    }
}

/// A stateful transformer from "next observation" to "optional peak
/// classification". It owns a bounded window of the up to `lag` most recent
/// (possibly dampened) observations and two configuration words, stored
/// verbatim at construction: the bit patterns of the detection threshold and
/// of the influence blend factor.
pub struct PeaksDetector {
    lag: usize,
    threshold: u64,
    influence: u64,
    window: Vec<u64>,
}

impl PeaksDetector {
    /// The window capacity fixed at construction.
    pub closed spec fn lag(self) -> nat {
        self.lag as nat
    }

    /// The threshold configuration word, stored verbatim.
    pub closed spec fn threshold_word(self) -> u64 {
        self.threshold
    }

    /// The influence configuration word, stored verbatim.
    pub closed spec fn influence_word(self) -> u64 {
        self.influence
    }

    /// The window contents, oldest first.
    pub closed spec fn window(self) -> Seq<u64> {
        self.window@
    }

    /// The window never holds more than `lag` values.
    pub open spec fn wf(self) -> bool {
        self.window().len() <= self.lag()
    }

    /// Whether the detector is still in its fill phase.
    pub open spec fn filling(self) -> bool {
        self.window().len() < self.lag()
    }

    /// Creates a detector with window capacity `lag` and the given
    /// configuration words, its window empty.
    pub fn new(lag: usize, threshold: u64, influence: u64) -> (detector: PeaksDetector)
        ensures
            detector.wf(),
            detector.lag() == lag,
            detector.threshold_word() == threshold,
            detector.influence_word() == influence,
            detector.window() == Seq::<u64>::empty(),
    {
        PeaksDetector { lag, threshold, influence, window: Vec::with_capacity(lag) }
    }

    /// Feeds one observation, judged by the caller, to the detector. While
    /// the window is filling, the observation enters unchanged and no
    /// classification is returned, whatever the judgement says. Once the
    /// window is full, the oldest value leaves, the dampened replacement (on
    /// a peak) or the raw observation enters, and the classification follows
    /// the judgement. With zero capacity nothing changes and no
    /// classification is ever returned. The configuration never changes.
    pub fn signal(&mut self, value: u64, decision: Decision) -> (peak: Option<Peak>)
        ensures
            final(self).lag() == old(self).lag(),
            final(self).threshold_word() == old(self).threshold_word(),
            final(self).influence_word() == old(self).influence_word(),
            final(self).window() == step_window(
                old(self).window(),
                old(self).lag(),
                value,
                decision,
            ),
            peak == step_signal(old(self).window(), old(self).lag(), decision),
            old(self).wf() ==> final(self).wf(),
    {
        let ghost w0 = self.window@;
        if self.window.len() < self.lag {
            self.window.push(value);
            None
        } else if self.lag > 0 {
            self.window.remove(0);
            proof {
                assert(w0.remove(0) =~= w0.drop_first());
            }
            if decision.is_peak {
                self.window.push(decision.smoothed);
                Some(
                    if decision.is_high {
                        Peak::High
                    } else {
                        Peak::Low
                    },
                )
            } else {
                self.window.push(value);
                None
            }
        } else {
            None
        }
    }

    /// The window capacity the detector was constructed with.
    pub fn capacity(&self) -> (n: usize)
        ensures
            n == self.lag(),
    {
        self.lag
    }

    /// How many observations the window currently holds.
    pub fn len(&self) -> (n: usize)
        ensures
            n == self.window().len(),
    {
        self.window.len()
    }

    /// Whether the window is still below capacity, so that the next
    /// observation enters unchanged and receives no classification.
    pub fn is_filling(&self) -> (filling: bool)
        ensures
            filling == self.filling(),
    {
        self.window.len() < self.lag
    }

    /// The threshold configuration word, as stored at construction.
    pub fn threshold(&self) -> (threshold: u64)
        ensures
            threshold == self.threshold_word(),
    {
        self.threshold
    }

    /// The influence configuration word, as stored at construction.
    pub fn influence(&self) -> (influence: u64)
        ensures
            influence == self.influence_word(),
    {
        self.influence
    }

    /// A copy of the window contents, oldest first.
    pub fn window_values(&self) -> (values: Vec<u64>)
        ensures
            values@ == self.window(),
    {
        let mut values: Vec<u64> = Vec::new();
        let mut i: usize = 0;
        while i < self.window.len()
            invariant
                i <= self.window@.len(),
                values@ == self.window@.subrange(0, i as int),
            decreases self.window@.len() - i,
        {
            let v = self.window[i];
            values.push(v);
            proof {
                assert(self.window@.subrange(0, i as int).push(self.window@[i as int])
                    =~= self.window@.subrange(0, i as int + 1));
            }
            i = i + 1;
        }
        proof {
            assert(self.window@.subrange(0, self.window@.len() as int) =~= self.window@);
        }
        values
    }

    /// The observations that a statistics computation over the current
    /// window ranges over: the whole window, oldest first, or nothing while
    /// the window is empty.
    pub fn stats_window(&self) -> (contents: Option<Vec<u64>>)
        ensures
            contents is Some <==> self.window().len() > 0,
            contents matches Some(values) ==> values@ == self.window(),
    {
        if self.window.len() == 0 {
            None
        } else {
            Some(self.window_values())
        }
    }
}

} // verus!
