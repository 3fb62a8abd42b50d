//! The library's laws, stated and proved over whole runs of the detector.

use vstd::prelude::*;

use crate::detector::{step_signal, step_window, Decision, Peak};

verus! {

/// One observation together with the caller's judgement of it, as fed to one
/// `signal` call.
pub struct Step {
    pub value: u64,
    pub decision: Decision,
}

/// The window after a whole sequence of judged observations, fed in order to
/// a detector whose window starts as `w` and whose capacity is `lag`.
pub open spec fn run_window(w: Seq<u64>, lag: nat, steps: Seq<Step>) -> Seq<u64>
    decreases steps.len(),
{
    if steps.len() == 0 {
        w
    } else {
        run_window(
            step_window(w, lag, steps.first().value, steps.first().decision),
            lag,
            steps.drop_first(),
        )
    }
}

/// The classifications returned, in order, for a whole sequence of judged
/// observations fed to a detector whose window starts as `w` and whose
/// capacity is `lag`.
pub open spec fn run_signals(w: Seq<u64>, lag: nat, steps: Seq<Step>) -> Seq<Option<Peak>>
    decreases steps.len(),
{
    if steps.len() == 0 {
        Seq::empty()
    } else {
        seq![step_signal(w, lag, steps.first().decision)] + run_signals(
            step_window(w, lag, steps.first().value, steps.first().decision),
            lag,
            steps.drop_first(),
        )
    }
}

/// Fill-phase law: as long as the observations cannot bring the window past
/// capacity, every one of them enters the window unchanged, in order, and
/// none receives a classification — whatever the judgements say.
pub proof fn lemma_fill_run(w: Seq<u64>, lag: nat, steps: Seq<Step>)
    requires
        w.len() + steps.len() <= lag,
    ensures
        run_window(w, lag, steps) == w + steps.map_values(|s: Step| s.value),
        run_signals(w, lag, steps) == Seq::new(steps.len(), |i: int| None::<Peak>),
    decreases steps.len(),
{
    let values = steps.map_values(|s: Step| s.value);
    if steps.len() == 0 {
        assert(run_window(w, lag, steps) =~= w + values);
        assert(run_signals(w, lag, steps) =~= Seq::new(steps.len(), |i: int| None::<Peak>));
    } else {
        let first = steps.first();
        let w1 = step_window(w, lag, first.value, first.decision);
        assert(w1 == w.push(first.value));
        lemma_fill_run(w1, lag, steps.drop_first());
        let rest_values = steps.drop_first().map_values(|s: Step| s.value);
        assert(w1 + rest_values =~= w + values);
        assert(run_signals(w, lag, steps) =~= Seq::new(steps.len(), |i: int| None::<Peak>));
    }
}

/// Fill-phase law, as the detector's user meets it: starting from an empty
/// window, each of the first `lag` calls returns no classification,
/// regardless of the observed values and of their judgements.
pub proof fn lemma_fill_phase(lag: nat, steps: Seq<Step>, i: int)
    requires
        steps.len() <= lag,
        0 <= i < steps.len(),
    ensures
        run_signals(Seq::<u64>::empty(), lag, steps)[i] is None,
{
    lemma_fill_run(Seq::<u64>::empty(), lag, steps);
}

/// Window-size law: the window never exceeds capacity, and once it has
/// reached capacity it holds exactly `lag` values after every further
/// observation (instantiate `steps` with any prefix of the input to see the
/// length after that many calls).
pub proof fn lemma_window_size_invariant(w: Seq<u64>, lag: nat, steps: Seq<Step>)
    requires
        w.len() <= lag,
    ensures
        run_window(w, lag, steps).len() <= lag,
        w.len() == lag ==> run_window(w, lag, steps).len() == lag,
    decreases steps.len(),
{
    if steps.len() > 0 {
        let first = steps.first();
        let w1 = step_window(w, lag, first.value, first.decision);
        lemma_window_size_invariant(w1, lag, steps.drop_first());
    }
}

/// Determinism law: identical construction parameters and an identical
/// sequence of judged observations yield an identical sequence of
/// classifications and an identical final window — the detector hides no
/// further state and draws on no randomness.
pub proof fn lemma_deterministic(
    w1: Seq<u64>,
    lag1: nat,
    steps1: Seq<Step>,
    w2: Seq<u64>,
    lag2: nat,
    steps2: Seq<Step>,
)
    requires
        w1 == w2,
        lag1 == lag2,
        steps1 == steps2,
    ensures
        run_signals(w1, lag1, steps1) == run_signals(w2, lag2, steps2),
        run_window(w1, lag1, steps1) == run_window(w2, lag2, steps2),
{
}

/// Zero-influence law, in the form the window bookkeeping can state: when a
/// detected peak's replacement word equals the trailing window value — which
/// is what the dampening blend gives with influence zero — the peak's raw
/// value never enters the window: the trailing value propagates forward, and
/// every value in the new window already stood in the old one.
pub proof fn lemma_zero_influence_excludes_peak(
    w: Seq<u64>,
    lag: nat,
    value: u64,
    decision: Decision,
)
    requires
        w.len() == lag,
        lag > 0,
        decision.is_peak,
        decision.smoothed == w.last(),
    ensures
        step_window(w, lag, value, decision).last() == w.last(),
        forall|x: u64| step_window(w, lag, value, decision).contains(x) ==> w.contains(x),
{
    let w1 = step_window(w, lag, value, decision);
    assert(w1 == w.drop_first().push(w.last()));
    assert forall|x: u64| w1.contains(x) implies w.contains(x) by {
        let j = choose|j: int| 0 <= j < w1.len() && w1[j] == x;
        if j < w1.len() - 1 {
            assert(w[j + 1] == x);
        } else {
            assert(w[w.len() - 1] == x);
        }
    }
}

/// Classification law: an observation is classified `High` exactly when the
/// window is at (positive) capacity and the observation was judged a peak
/// lying above the mean, `Low` exactly when it was judged a peak lying below,
/// and receives no classification otherwise — in particular never during the
/// fill phase and never with zero capacity.
pub proof fn lemma_classification(w: Seq<u64>, lag: nat, decision: Decision)
    ensures
        step_signal(w, lag, decision) == Some(Peak::High) <==> (lag > 0 && w.len() >= lag
            && decision.is_peak && decision.is_high),
        step_signal(w, lag, decision) == Some(Peak::Low) <==> (lag > 0 && w.len() >= lag
            && decision.is_peak && !decision.is_high),
        step_signal(w, lag, decision) is None <==> (w.len() < lag || lag == 0
            || !decision.is_peak),
{
}

} // verus!
