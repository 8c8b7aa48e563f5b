//! Decision core of a tick-driven state-correction agent.
//!
//! Each game snapshot is reduced to plain values (the elapsed time in
//! microseconds, the match phase and the contact state of every car) and
//! handed to [`AgentState::tick`], which decides which cars receive a
//! stickiness correction and whether the global gravity override is resent.
//! Times are integers, so every timing rule is exact.

mod laws;
mod phase;
mod schedule;

pub use laws::{
    emits_at, fires_at, lemma_cadence, lemma_trigger_fires_on_edge, lemma_window_closes, state_after,
};
pub use phase::{is_kickoff_edge, kickoff_edge, needs_correction, wants_correction, Contact, Phase};
pub use schedule::{
    correction_interval, correction_mask, due, emits_global, in_window, initial_state, mask_ok,
    next_state, resend_due, step_dt, trigger_time_after, window_open, AgentState, Config, TickPlan,
    REPEAT_DURATION_MICROS, REPEAT_INTERVAL_MICROS,
};
