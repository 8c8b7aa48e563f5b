use vstd::prelude::*;
use crate::phase::{kickoff_edge, Phase};
use crate::schedule::{emits_global, next_state, AgentState, Config};

verus! {

/// The state after a run of ticks, each given by its elapsed time and phase,
/// from the state `s0`.
pub open spec fn state_after(cfg: Config, s0: AgentState, ev: Seq<(i64, Phase)>) -> AgentState
    decreases ev.len(),
{
    if ev.len() == 0 {
        s0
    } else {
        next_state(cfg, state_after(cfg, s0, ev.drop_last()), ev.last().0, ev.last().1)
    }
}

/// The kickoff edge is seen on tick `i` of the run.
pub open spec fn fires_at(cfg: Config, s0: AgentState, ev: Seq<(i64, Phase)>, i: int) -> bool {
    kickoff_edge(state_after(cfg, s0, ev.take(i)).prev_phase, ev[i].1)
}

/// The global command is sent on tick `i` of the run.
pub open spec fn emits_at(cfg: Config, s0: AgentState, ev: Seq<(i64, Phase)>, i: int) -> bool {
    emits_global(cfg, state_after(cfg, s0, ev.take(i)), ev[i].0, ev[i].1)
}

proof fn lemma_step(cfg: Config, s0: AgentState, ev: Seq<(i64, Phase)>, i: int)
    requires
        0 <= i < ev.len(),
    ensures
        state_after(cfg, s0, ev.take(i + 1)) == next_state(
            cfg,
            state_after(cfg, s0, ev.take(i)),
            ev[i].0,
            ev[i].1,
        ),
{
    assert(ev.take(i + 1).drop_last() =~= ev.take(i));
    assert(ev.take(i + 1).last() == ev[i]);
}

proof fn lemma_trigger_time_kept(cfg: Config, s0: AgentState, ev: Seq<(i64, Phase)>, i: int, k: int)
    requires
        0 <= i <= k <= ev.len(),
        forall|m: int| i <= m < k ==> !#[trigger] fires_at(cfg, s0, ev, m),
    ensures
        state_after(cfg, s0, ev.take(k)).last_trigger_time == state_after(
            cfg,
            s0,
            ev.take(i),
        ).last_trigger_time,
    decreases k - i,
{
    if k > i {
        lemma_trigger_time_kept(cfg, s0, ev, i, k - 1);
        lemma_step(cfg, s0, ev, k - 1);
        assert(!fires_at(cfg, s0, ev, k - 1));
    }
}

proof fn lemma_application_time_kept(cfg: Config, s0: AgentState, ev: Seq<(i64, Phase)>, i: int, k: int)
    requires
        0 <= i <= k <= ev.len(),
        forall|m: int| i <= m < k ==> !#[trigger] emits_at(cfg, s0, ev, m),
    ensures
        state_after(cfg, s0, ev.take(k)).last_application_time == state_after(
            cfg,
            s0,
            ev.take(i),
        ).last_application_time,
    decreases k - i,
{
    if k > i {
        lemma_application_time_kept(cfg, s0, ev, i, k - 1);
        lemma_step(cfg, s0, ev, k - 1);
        assert(!emits_at(cfg, s0, ev, k - 1));
    }
}

/// The kickoff edge fires on a tick if and only if the tick before it was in
/// the countdown and this one is in the kickoff; in particular a kickoff that
/// follows a kickoff never fires again.
pub proof fn lemma_trigger_fires_on_edge(cfg: Config, s0: AgentState, ev: Seq<(i64, Phase)>, i: int)
    requires
        0 < i < ev.len(),
    ensures
        fires_at(cfg, s0, ev, i) == (ev[i - 1].1 == Phase::Countdown && ev[i].1 == Phase::Kickoff),
        ev[i - 1].1 == Phase::Kickoff ==> !fires_at(cfg, s0, ev, i),
{
    lemma_step(cfg, s0, ev, i - 1);
}

/// Once the time since the last kickoff edge exceeds the repeat duration, no
/// global command is sent until a new edge fires: `T` is the trigger time held
/// before tick `i`, and no edge fires from tick `i` to tick `j`.
pub proof fn lemma_window_closes(cfg: Config, s0: AgentState, ev: Seq<(i64, Phase)>, i: int, j: int)
    requires
        0 <= i <= j < ev.len(),
        forall|m: int| i <= m <= j ==> !#[trigger] fires_at(cfg, s0, ev, m),
        ev[j].0 - state_after(cfg, s0, ev.take(i)).last_trigger_time > cfg.repeat_duration,
    ensures
        !emits_at(cfg, s0, ev, j),
{
    lemma_trigger_time_kept(cfg, s0, ev, i, j);
    assert(!fires_at(cfg, s0, ev, j));
}

/// Two consecutive sends of the global command are at least one repeat
/// interval apart in match time.
pub proof fn lemma_cadence(cfg: Config, s0: AgentState, ev: Seq<(i64, Phase)>, i: int, j: int)
    requires
        0 <= i < j < ev.len(),
        emits_at(cfg, s0, ev, i),
        emits_at(cfg, s0, ev, j),
        forall|m: int| i < m < j ==> !#[trigger] emits_at(cfg, s0, ev, m),
    ensures
        ev[j].0 - ev[i].0 >= cfg.repeat_interval,
{
    lemma_step(cfg, s0, ev, i);
    lemma_application_time_kept(cfg, s0, ev, i + 1, j);
}

} // verus!
