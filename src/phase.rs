use vstd::prelude::*;

verus! {

/// The phase of a match, as reported in each snapshot.
#[derive(Clone, Copy, Debug, PartialEq, Eq, Structural)]
pub enum Phase {
    Inactive,
    Countdown,
    Kickoff,
    Active,
    GoalScored,
    Replay,
    Paused,
    Ended,
}

/// The contact state of a car's wheels with a surface.
#[derive(Clone, Copy, Debug, PartialEq, Eq, Structural)]
pub enum Contact {
    OnGround,
    Jumping,
    DoubleJumping,
    Dodging,
    InAir,
}

/// The rising edge that starts a resend window: the countdown has just
/// given way to the kickoff.
pub open spec fn kickoff_edge(prev: Phase, cur: Phase) -> bool {
    prev == Phase::Countdown && cur == Phase::Kickoff
}

/// A car is corrected when it touches a surface, or when the whole field is
/// frozen in the countdown (all cars are then grounded, whatever they report).
pub open spec fn wants_correction(contact: Contact, phase: Phase) -> bool {
    contact == Contact::OnGround || phase == Phase::Countdown
}

pub fn is_kickoff_edge(prev: Phase, cur: Phase) -> (r: bool)
    ensures
        r == kickoff_edge(prev, cur),
{
    prev == Phase::Countdown && cur == Phase::Kickoff
}

pub fn needs_correction(contact: Contact, phase: Phase) -> (r: bool)
    ensures
        r == wants_correction(contact, phase),
{
    contact == Contact::OnGround || phase == Phase::Countdown
}

} // verus!
