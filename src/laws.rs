//! Properties of whole sequences of lifecycle callbacks, proved over the
//! model that the bridge's methods are specified by.
use crate::ecs::{
    initial_model, passes, run, step, step_pass, BridgeModel, Callback, ProcessState, UpdatePass,
};
use vstd::prelude::*;

verus! {

/// Each callback runs exactly one update pass.
pub proof fn lemma_passes_len(m: BridgeModel, calls: Seq<Callback>)
    ensures
        passes(m, calls).len() == calls.len(),
        run(m, calls).passes == m.passes + calls.len(),
    decreases calls.len(),
{
    if calls.len() > 0 {
        lemma_passes_len(m, calls.drop_last());
    }
}

/// The `i`-th pass is the pass of the `i`-th callback, taken from the state
/// that the callbacks before it left.
pub proof fn lemma_pass_at(m: BridgeModel, calls: Seq<Callback>, i: int)
    requires
        0 <= i < calls.len(),
    ensures
        passes(m, calls)[i] == step_pass(run(m, calls.take(i)), calls[i]),
    decreases calls.len(),
{
    lemma_passes_len(m, calls.drop_last());
    if i == calls.len() - 1 {
        assert(calls.drop_last() =~= calls.take(i));
    } else {
        lemma_pass_at(m, calls.drop_last(), i);
        assert(calls.drop_last().take(i) =~= calls.take(i));
    }
}

/// The state of every pass follows the callback that ran it: `Physics` for
/// `physics_process`, `Idle` for `process` and for `ready`, whatever came
/// before.
pub proof fn lemma_pass_state_follows_callback(m: BridgeModel, calls: Seq<Callback>)
    ensures
        passes(m, calls).len() == calls.len(),
        forall|i: int|
            0 <= i < calls.len() ==> passes(m, calls)[i].state == (if calls[i]
                == Callback::PhysicsProcess {
                ProcessState::Physics
            } else {
                ProcessState::Idle
            }),
{
    lemma_passes_len(m, calls);
    assert forall|i: int| 0 <= i < calls.len() implies passes(m, calls)[i].state == (if calls[i]
        == Callback::PhysicsProcess {
        ProcessState::Physics
    } else {
        ProcessState::Idle
    }) by {
        lemma_pass_at(m, calls, i);
    }
}

/// The exit-on-cancel system runs in no pass whose state is `Physics`, and
/// in every pass whose state is `Idle`.
pub proof fn lemma_exit_system_idle_only(m: BridgeModel, calls: Seq<Callback>)
    ensures
        forall|i: int|
            0 <= i < calls.len() ==> (passes(m, calls)[i].exit_check <==> passes(m, calls)[i].state
                == ProcessState::Idle),
{
    lemma_passes_len(m, calls);
    assert forall|i: int| 0 <= i < calls.len() implies (passes(m, calls)[i].exit_check
        <==> passes(m, calls)[i].state == ProcessState::Idle) by {
        lemma_pass_at(m, calls, i);
    }
}

/// Right after construction, `ready` runs one pass, in `Idle`, with the
/// startup systems and the exit-on-cancel system.
pub proof fn lemma_ready_after_construction()
    ensures
        step(initial_model(), Callback::Ready).passes == 1,
        step_pass(initial_model(), Callback::Ready) == (UpdatePass {
            state: ProcessState::Idle,
            startup: true,
            exit_check: true,
        }),
        passes(initial_model(), seq![Callback::Ready]) == seq![
            step_pass(initial_model(), Callback::Ready),
        ],
{
    let calls = seq![Callback::Ready];
    assert(calls.drop_last() =~= Seq::<Callback>::empty());
    assert(calls.last() == Callback::Ready);
    assert(run(initial_model(), calls.drop_last()) == initial_model());
    assert(passes(initial_model(), calls.drop_last()) =~= Seq::<UpdatePass>::empty());
    assert(passes(initial_model(), calls) =~= seq![step_pass(initial_model(), Callback::Ready)]);
}

/// After any nonempty sequence of callbacks no next state is left pending,
/// and the active state is the one that the last callback asked for,
/// whatever came before.
pub proof fn lemma_no_stale_next_state(m: BridgeModel, calls: Seq<Callback>)
    requires
        calls.len() > 0,
    ensures
        run(m, calls).pending is None,
        calls.last() != Callback::PhysicsProcess ==> run(m, calls).active == ProcessState::Idle,
        calls.last() == Callback::PhysicsProcess ==> run(m, calls).active
            == ProcessState::Physics,
{
}

} // verus!
