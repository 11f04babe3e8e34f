//! What holds of every acquisition state and of every cycle.

use crate::acquisition::{
    after_cycles, armed, completed, cycle_steps, Acquisition, AcquisitionModel, Owner, StepModel,
};
use vstd::prelude::*;

verus! {

/// The number of indicator toggles among the steps.
pub open spec fn toggles(steps: Seq<StepModel>) -> nat
    decreases steps.len(),
{
    if steps.len() == 0 {
        0
    } else {
        let rest = toggles(steps.drop_last());
        match steps.last() {
            StepModel::ToggleIndicator => rest + 1,
            _ => rest,
        }
    }
}

/// No state holds more than one transfer in flight.
pub proof fn at_most_one_pending(acquisition: Acquisition)
    ensures
        acquisition.pending_transfers() <= 1,
        acquisition.pending_transfers() == 1 <==> acquisition@.owner == Owner::Hardware,
{
}

/// A cycle toggles the indicator exactly once, as its second step, whether
/// or not the bytes decoded.
pub proof fn one_toggle_per_cycle(received: Seq<u8>, outcome: Option<Seq<char>>)
    ensures
        toggles(cycle_steps(received, outcome)) == 1,
        cycle_steps(received, outcome)[1] == StepModel::ToggleIndicator,
{
    let steps = cycle_steps(received, outcome);
    let head = seq![
        StepModel::RawBytes(received),
        StepModel::ToggleIndicator,
        StepModel::Decoding,
    ];
    assert(toggles(head) == 1) by {
        let two = head.drop_last();
        let one = two.drop_last();
        assert(one.drop_last().len() == 0);
        assert(toggles(one.drop_last()) == 0);
        assert(toggles(one) == 0);
        assert(toggles(two) == 1);
    }
    match outcome {
        Some(text) => {
            let with_text = head.push(StepModel::Rendered(text));
            assert(with_text.drop_last() =~= head);
            assert(toggles(with_text) == 1);
            assert(steps.drop_last() =~= with_text);
            assert(toggles(steps) == 1);
        },
        None => {
            assert(steps.drop_last() =~= head);
            assert(toggles(steps) == 1);
        },
    }
}

/// The outcome of decoding decides one thing only: the steps of a cycle
/// whose bytes did not decode are those of any cycle on the same bytes with
/// the rendered frame left out.
pub proof fn outcome_only_adds_the_rendering(received: Seq<u8>, outcome: Option<Seq<char>>)
    ensures
        cycle_steps(received, None) =~= cycle_steps(received, outcome).filter(
            |step: StepModel| !(step is Rendered),
        ),
{
    let keep = |step: StepModel| !(step is Rendered);
    let steps = cycle_steps(received, outcome);
    let s0 = Seq::<StepModel>::empty();
    let s1 = s0.push(StepModel::RawBytes(received));
    let s2 = s1.push(StepModel::ToggleIndicator);
    let s3 = s2.push(StepModel::Decoding);
    reveal(Seq::filter);
    assert(s1.drop_last() =~= s0);
    assert(s2.drop_last() =~= s1);
    assert(s3.drop_last() =~= s2);
    assert(s0.filter(keep) =~= s0);
    assert(s1.filter(keep) =~= s1);
    assert(s2.filter(keep) =~= s2);
    assert(s3.filter(keep) =~= s3);
    assert(s3 =~= seq![
        StepModel::RawBytes(received),
        StepModel::ToggleIndicator,
        StepModel::Decoding,
    ]);
    match outcome {
        Some(text) => {
            let s4 = s3.push(StepModel::Rendered(text));
            assert(s4.drop_last() =~= s3);
            assert(s4.filter(keep) =~= s3);
            assert(steps.drop_last() =~= s4);
            assert(steps.filter(keep) =~= s3.push(StepModel::After));
        },
        None => {
            assert(steps.drop_last() =~= s3);
            assert(steps.filter(keep) =~= s3.push(StepModel::After));
        },
    }
}

/// After any number of cycles the application owns the buffer again, and the
/// indicator differs from where it started exactly when the number of cycles
/// is odd: starting low, it is high after one cycle, low after two, and so on.
pub proof fn indicator_alternates(state: AcquisitionModel, frames: Seq<Seq<u8>>)
    requires
        state.owner == Owner::Application,
    ensures
        after_cycles(state, frames).owner == Owner::Application,
        after_cycles(state, frames).indicator_high == (state.indicator_high != (frames.len() % 2
            == 1)),
        frames.len() > 0 ==> after_cycles(state, frames).buffer == frames.last(),
    decreases frames.len(),
{
    if frames.len() > 0 {
        indicator_alternates(state, frames.drop_last());
    }
}

/// Arming and completing are the two directions of one hand-off: a cycle
/// started by the application ends with the application, and in between the
/// hardware owns the buffer.
pub proof fn cycle_returns_ownership(state: AcquisitionModel, received: Seq<u8>)
    requires
        state.owner == Owner::Application,
    ensures
        armed(state).owner == Owner::Hardware,
        armed(state).buffer == state.buffer,
        armed(state).indicator_high == state.indicator_high,
        completed(armed(state), received).owner == Owner::Application,
        completed(armed(state), received).buffer == received,
        completed(armed(state), received).indicator_high == !state.indicator_high,
{
}

} // verus!
