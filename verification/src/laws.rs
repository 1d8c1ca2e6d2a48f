//! Laws of the timer engine, stated over the transition function `step` and
//! proved once and for all.

use vstd::arithmetic::div_mod::lemma_fundamental_div_mod;
use vstd::arithmetic::div_mod::lemma_fundamental_div_mod_converse;
use vstd::arithmetic::div_mod::lemma_mod_bound;
use vstd::prelude::*;

use crate::engine::wf_model;
use crate::engine::EngineModel;
use crate::engine::EventModel;
use crate::engine::Phase;
use crate::engine::step;

verus! {

/// The state after `n` tick events, with no other event in between.
pub open spec fn run_ticks(pre: EngineModel, n: nat) -> EngineModel
    decreases n,
{
    if n == 0 {
        pre
    } else {
        step(run_ticks(pre, (n - 1) as nat), EventModel::Tick).0
    }
}

/// After Start with a positive configuration, the run begins at the first
/// round with nothing elapsed, Running, and the total duration equal to
/// `interval_secs * num_rounds`.
pub proof fn lemma_start_begins_run(pre: EngineModel)
    requires
        pre.interval_secs >= 1,
        pre.num_rounds >= 1,
    ensures
        step(pre, EventModel::Start).0.total_duration_secs == pre.interval_secs * pre.num_rounds,
        step(pre, EventModel::Start).0.elapsed_secs == 0,
        step(pre, EventModel::Start).0.round_number == 1,
        step(pre, EventModel::Start).0.phase == Phase::Running,
{
}

/// Idempotence: Pause while Paused, Resume while Running, and Stop while
/// Stopped leave every field unchanged.
pub proof fn lemma_idempotent_commands(pre: EngineModel)
    ensures
        pre.phase == Phase::Paused ==> step(pre, EventModel::Pause).0 == pre,
        pre.phase == Phase::Running ==> step(pre, EventModel::Resume).0 == pre,
        pre.phase == Phase::Stopped ==> step(pre, EventModel::Stop).0 == pre,
{
    if pre.phase == Phase::Paused {
        assert(step(pre, EventModel::Pause).0 =~= pre);
    }
    if pre.phase == Phase::Running {
        assert(step(pre, EventModel::Resume).0 =~= pre);
    }
}

/// `n` ticks delivered while Running, starting below the total duration,
/// advance elapsed time to `min(elapsed_secs + n, total_duration_secs)`;
/// the run is Stopped exactly when the total duration has been reached, and
/// the configuration, its raw text and the total are untouched.
pub proof fn lemma_ticks_while_running(pre: EngineModel, n: nat)
    requires
        pre.phase == Phase::Running,
        pre.elapsed_secs < pre.total_duration_secs,
    ensures
        run_ticks(pre, n).elapsed_secs == if pre.elapsed_secs + n <= pre.total_duration_secs {
            pre.elapsed_secs + n
        } else {
            pre.total_duration_secs
        },
        run_ticks(pre, n).phase == if pre.elapsed_secs + n >= pre.total_duration_secs {
            Phase::Stopped
        } else {
            Phase::Running
        },
        run_ticks(pre, n).total_duration_secs == pre.total_duration_secs,
        run_ticks(pre, n).interval_secs == pre.interval_secs,
        run_ticks(pre, n).num_rounds == pre.num_rounds,
        run_ticks(pre, n).interval_input == pre.interval_input,
        run_ticks(pre, n).rounds_input == pre.rounds_input,
    decreases n,
{
    if n > 0 {
        lemma_ticks_while_running(pre, (n - 1) as nat);
    }
}

/// Round counting from a fresh start: after `n` ticks, none delivered past
/// the total duration, the round in progress is
/// `min(n / interval_secs + 1, num_rounds)`: the counter advances at every
/// chime boundary except the final one, where no round follows.
pub proof fn lemma_round_counting(pre: EngineModel, n: nat)
    requires
        wf_model(pre),
        pre.phase == Phase::Running,
        pre.elapsed_secs == 0,
        pre.round_number == 1,
        n <= pre.total_duration_secs,
    ensures
        run_ticks(pre, n).round_number == if n as int / pre.interval_secs + 1 <= pre.num_rounds {
            n as int / pre.interval_secs + 1
        } else {
            pre.num_rounds
        },
    decreases n,
{
    let i = pre.interval_secs;
    let rounds = pre.num_rounds;
    let total = pre.total_duration_secs;
    if n == 0 {
        lemma_fundamental_div_mod_converse(0, i, 0, 0);
    } else {
        let k = (n - 1) as nat;
        lemma_round_counting(pre, k);
        lemma_ticks_while_running(pre, k);
        let q = k as int / i;
        let rem = k as int % i;
        lemma_fundamental_div_mod(k as int, i);
        lemma_mod_bound(k as int, i);
        if rem + 1 < i {
            // No chime: the quotient does not move either.
            assert(n as int == q * i + (rem + 1)) by (nonlinear_arith)
                requires
                    n as int == i * q + rem + 1;
            lemma_fundamental_div_mod_converse(n as int, i, q, rem + 1);
        } else {
            // A chime boundary: `n` is the next multiple of the interval.
            assert(n as int == (q + 1) * i + 0) by (nonlinear_arith)
                requires
                    n as int == i * q + rem + 1,
                    rem == i - 1;
            lemma_fundamental_div_mod_converse(n as int, i, q + 1, 0);
            if n < total {
                assert(q + 1 < rounds) by (nonlinear_arith)
                    requires
                        (q + 1) * i < i * rounds,
                        i >= 1;
            } else {
                assert(q + 1 == rounds) by (nonlinear_arith)
                    requires
                        (q + 1) * i == i * rounds,
                        i >= 1;
            }
        }
    }
}

/// Ticks delivered while Paused are no-ops: any number of them leaves the
/// whole state, in particular `elapsed_secs`, exactly as it was.
pub proof fn lemma_ticks_while_paused(pre: EngineModel, n: nat)
    requires
        pre.phase == Phase::Paused,
    ensures
        run_ticks(pre, n) == pre,
    decreases n,
{
    if n > 0 {
        lemma_ticks_while_paused(pre, (n - 1) as nat);
    }
}

} // verus!
