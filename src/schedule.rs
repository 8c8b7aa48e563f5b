use vstd::prelude::*;
use crate::phase::{is_kickoff_edge, kickoff_edge, needs_correction, wants_correction, Contact, Phase};

verus! {

/// Default minimum spacing between two resends of the global command.
pub const REPEAT_INTERVAL_MICROS: u64 = 50_000;

/// Default length of the resend window that follows a kickoff.
pub const REPEAT_DURATION_MICROS: u64 = 500_000;

/// Timing of the resend policy, in microseconds of match time.
#[derive(Clone, Copy, Debug, PartialEq, Eq, Structural)]
pub struct Config {
    /// How often the global command is resent within a window.
    pub repeat_interval: u64,
    /// How long after a kickoff the global command keeps being resent.
    pub repeat_duration: u64,
}

impl Config {
    pub fn new(repeat_interval: u64, repeat_duration: u64) -> (c: Config)
        ensures
            c.repeat_interval == repeat_interval,
            c.repeat_duration == repeat_duration,
    {
        Config { repeat_interval, repeat_duration }
    }
}

impl Default for Config {
    fn default() -> (c: Config)
        ensures
            c.repeat_interval == REPEAT_INTERVAL_MICROS,
            c.repeat_duration == REPEAT_DURATION_MICROS,
    {
        Config { repeat_interval: REPEAT_INTERVAL_MICROS, repeat_duration: REPEAT_DURATION_MICROS }
    }
}

/// What the agent remembers from one tick to the next. Times are match
/// time in microseconds.
#[derive(Clone, Copy, Debug, PartialEq, Eq, Structural)]
pub struct AgentState {
    /// The phase seen on the previous tick.
    pub prev_phase: Phase,
    /// When the last kickoff edge was seen.
    pub last_trigger_time: i64,
    /// When the global command was last sent.
    pub last_application_time: i64,
    /// The elapsed time of the previous snapshot; `None` before the first.
    pub prev_elapsed: Option<i64>,
}

/// The decisions of one tick.
pub struct TickPlan {
    /// The time step the stickiness correction is scaled by, or `None`
    /// when there is no reliable one: on the first snapshot, and when
    /// time did not move forward since the previous one.
    pub correction_dt: Option<u64>,
    /// One entry per car, in the snapshot's order: whether its velocity
    /// is overwritten with the corrected one.
    pub corrected: Vec<bool>,
    /// Whether a kickoff edge was seen on this tick.
    pub triggered: bool,
    /// Whether the global command is sent on this tick.
    pub apply_global: bool,
}

/// The state an agent starts with: all timers at zero, no snapshot seen.
pub open spec fn initial_state() -> AgentState {
    AgentState {
        prev_phase: Phase::Inactive,
        last_trigger_time: 0,
        last_application_time: 0,
        prev_elapsed: None,
    }
}

/// The time step since the previous snapshot, where there is one and it
/// is positive.
pub open spec fn step_dt(prev: Option<i64>, elapsed: i64) -> Option<u64> {
    match prev {
        Some(p) => if p < elapsed {
            Some((elapsed - p) as u64)
        } else {
            None
        },
        None => None,
    }
}

/// The trigger time after a tick at `elapsed` in `phase`.
pub open spec fn trigger_time_after(s: AgentState, elapsed: i64, phase: Phase) -> i64 {
    if kickoff_edge(s.prev_phase, phase) {
        elapsed
    } else {
        s.last_trigger_time
    }
}

/// The resend window is still open at `elapsed`.
pub open spec fn in_window(cfg: Config, trigger_time: i64, elapsed: i64) -> bool {
    elapsed - trigger_time <= cfg.repeat_duration
}

/// At least one interval has passed since the last send.
pub open spec fn due(cfg: Config, last_application_time: i64, elapsed: i64) -> bool {
    elapsed - last_application_time >= cfg.repeat_interval
}

/// Whether the tick at `elapsed` in `phase` sends the global command.
pub open spec fn emits_global(cfg: Config, s: AgentState, elapsed: i64, phase: Phase) -> bool {
    in_window(cfg, trigger_time_after(s, elapsed, phase), elapsed)
        && due(cfg, s.last_application_time, elapsed)
}

/// The state after the tick at `elapsed` in `phase`.
pub open spec fn next_state(cfg: Config, s: AgentState, elapsed: i64, phase: Phase) -> AgentState {
    AgentState {
        prev_phase: phase,
        last_trigger_time: trigger_time_after(s, elapsed, phase),
        last_application_time: if emits_global(cfg, s, elapsed, phase) {
            elapsed
        } else {
            s.last_application_time
        },
        prev_elapsed: Some(elapsed),
    }
}

/// The corrected entries of a tick: a car is corrected exactly when there is
/// a time step and the car wants a correction.
pub open spec fn mask_ok(
    mask: Seq<bool>,
    contacts: Seq<Contact>,
    phase: Phase,
    dt: Option<u64>,
) -> bool {
    &&& mask.len() == contacts.len()
    &&& forall|i: int|
        0 <= i < mask.len() ==> #[trigger] mask[i] == (dt is Some && wants_correction(contacts[i], phase))
}

/// The time step since the previous snapshot; `None` on the first snapshot
/// and when `elapsed` did not move past the previous one.
pub fn correction_interval(prev: Option<i64>, elapsed: i64) -> (r: Option<u64>)
    ensures
        r == step_dt(prev, elapsed),
{
    match prev {
        Some(p) => if p < elapsed {
            Some((elapsed as i128 - p as i128) as u64)
        } else {
            None
        },
        None => None,
    }
}

/// Marks the cars whose velocity is corrected on this tick.
pub fn correction_mask(contacts: &Vec<Contact>, phase: Phase, dt: Option<u64>) -> (mask: Vec<bool>)
    ensures
        mask_ok(mask@, contacts@, phase, dt),
{
    let mut mask: Vec<bool> = Vec::with_capacity(contacts.len());
    let has_dt = dt.is_some();
    let mut i: usize = 0;
    while i < contacts.len()
        invariant
            i <= contacts@.len(),
            has_dt == dt is Some,
            mask@.len() == i,
            forall|k: int|
                0 <= k < i ==> #[trigger] mask@[k] == (dt is Some && wants_correction(contacts@[k], phase)),
        decreases contacts@.len() - i,
    {
        let c = has_dt && needs_correction(contacts[i], phase);
        mask.push(c);
        i = i + 1;
    }
    mask
}

/// Whether the resend window that began at `trigger_time` is still open.
pub fn window_open(cfg: &Config, trigger_time: i64, elapsed: i64) -> (r: bool)
    ensures
        r == in_window(*cfg, trigger_time, elapsed),
{
    elapsed as i128 - trigger_time as i128 <= cfg.repeat_duration as i128
}

/// Whether a resend is due, the last one having been at `last_application_time`.
pub fn resend_due(cfg: &Config, last_application_time: i64, elapsed: i64) -> (r: bool)
    ensures
        r == due(*cfg, last_application_time, elapsed),
{
    elapsed as i128 - last_application_time as i128 >= cfg.repeat_interval as i128
}

impl AgentState {
    pub fn new() -> (s: AgentState)
        ensures
            s == initial_state(),
    {
        AgentState {
            prev_phase: Phase::Inactive,
            last_trigger_time: 0,
            last_application_time: 0,
            prev_elapsed: None,
        }
    }

    /// Processes one snapshot: `elapsed` is its match time in microseconds,
    /// `contacts` the contact state of each car.
    ///
    /// Snapshots are expected in non-decreasing time. One that goes back in
    /// time is still handled: it gets no stickiness correction, and since
    /// its time lies before the last send, no global command either until
    /// time passes that send again by an interval; its phase still counts
    /// for the kickoff edge.
    pub fn tick(&mut self, cfg: &Config, elapsed: i64, phase: Phase, contacts: &Vec<Contact>) -> (plan: TickPlan)
        ensures
            *final(self) == next_state(*cfg, *old(self), elapsed, phase),
            plan.correction_dt == step_dt(old(self).prev_elapsed, elapsed),
            mask_ok(plan.corrected@, contacts@, phase, plan.correction_dt),
            plan.triggered == kickoff_edge(old(self).prev_phase, phase),
            plan.apply_global == emits_global(*cfg, *old(self), elapsed, phase),
    {
        let dt = correction_interval(self.prev_elapsed, elapsed);
        self.prev_elapsed = Some(elapsed);
        let corrected = correction_mask(contacts, phase, dt);

        let triggered = is_kickoff_edge(self.prev_phase, phase);
        if triggered {
            self.last_trigger_time = elapsed;
        }
        self.prev_phase = phase;

        let mut apply_global = false;
        if window_open(cfg, self.last_trigger_time, elapsed)
            && resend_due(cfg, self.last_application_time, elapsed) {
            self.last_application_time = elapsed;
            apply_global = true;
        }
        TickPlan { correction_dt: dt, corrected, triggered, apply_global }
    }
}

impl TickPlan {
    /// Whether any car is corrected, so that a state command is worth sending.
    pub fn has_correction(&self) -> (r: bool)
        ensures
            r == exists|i: int| 0 <= i < self.corrected@.len() && #[trigger] self.corrected@[i],
    {
        let mut i: usize = 0;
        while i < self.corrected.len()
            invariant
                i <= self.corrected@.len(),
                forall|k: int| 0 <= k < i ==> !#[trigger] self.corrected@[k],
            decreases self.corrected@.len() - i,
        {
            if self.corrected[i] {
                return true;
            }
            i = i + 1;
        }
        false
    }
}

} // verus!
