//! The per-tick death-latch observer and its registration record.
//!
//! A recurring callback registered with the host scheduler observes a
//! health value once per tick.  The latch holds the callback's own state
//! across ticks: alive until a non-positive health sample is seen, at
//! which point it captures the current time; when health turns positive
//! again it releases, handing the captured time back to be written into
//! host state.  A tick on which the observed sub-object is absent is a
//! no-op: the latch keeps its state and nothing is written.

use vstd::prelude::*;

verus! {

/// The latch state owned by one registration, persisted across ticks.
#[derive(Clone, Copy, PartialEq, Eq, Structural, Debug)]
pub enum DeathLatch {
    /// The last observed health was positive (or nothing was observed yet).
    Alive,
    /// A non-positive health was observed at `time_of_death`.
    Dead { time_of_death: u64 },
}

/// What one tick observes through the resolved handle: the expected
/// sub-object may be absent on any given tick.
#[derive(Clone, Copy, PartialEq, Eq, Structural, Debug)]
pub enum Observation {
    /// The host's object graph held no observable sub-object this tick.
    Absent,
    /// The observed health, and the current time of the host clock.
    Present { health: i64, now: u64 },
}

/// The action the embedding performs on host state after a tick.
#[derive(Clone, Copy, PartialEq, Eq, Structural, Debug)]
pub enum TickEffect {
    /// Nothing to write this tick.
    Nothing,
    /// Write the captured time of death back into host state.
    WriteBack { time: u64 },
}

/// The latch state after one tick: `Alive` turns `Dead` exactly on a
/// present, non-positive health sample, capturing the sample's time;
/// `Dead` turns `Alive` exactly on a present, positive health sample; an
/// absent observation changes nothing.
pub open spec fn latch_next(l: DeathLatch, obs: Observation) -> DeathLatch {
    match obs {
        Observation::Absent => l,
        Observation::Present { health, now } => match l {
            DeathLatch::Alive => if health <= 0 {
                DeathLatch::Dead { time_of_death: now }
            } else {
                DeathLatch::Alive
            },
            DeathLatch::Dead { time_of_death } => if health > 0 {
                DeathLatch::Alive
            } else {
                DeathLatch::Dead { time_of_death }
            },
        },
    }
}

/// The effect of one tick: the captured time is written back exactly on
/// the transition out of `Dead`, and on no other tick.
pub open spec fn latch_effect(l: DeathLatch, obs: Observation) -> TickEffect {
    match obs {
        Observation::Absent => TickEffect::Nothing,
        Observation::Present { health, now } => match l {
            DeathLatch::Dead { time_of_death } => if health > 0 {
                TickEffect::WriteBack { time: time_of_death }
            } else {
                TickEffect::Nothing
            },
            DeathLatch::Alive => TickEffect::Nothing,
        },
    }
}

/// Advances the latch by one tick and returns the action to perform on
/// host state.  An absent observation leaves the latch unchanged and
/// performs nothing.
pub fn latch_tick(latch: &mut DeathLatch, obs: Observation) -> (e: TickEffect)
    ensures
        *final(latch) == latch_next(*old(latch), obs),
        e == latch_effect(*old(latch), obs),
        obs == Observation::Absent ==> *final(latch) == *old(latch) && e == TickEffect::Nothing,
{
    match obs {
        Observation::Absent => TickEffect::Nothing,
        Observation::Present { health, now } => match *latch {
            DeathLatch::Alive => {
                if health <= 0 {
                    *latch = DeathLatch::Dead { time_of_death: now };
                }
                TickEffect::Nothing
            },
            DeathLatch::Dead { time_of_death } => {
                if health > 0 {
                    *latch = DeathLatch::Alive;
                    TickEffect::WriteBack { time: time_of_death }
                } else {
                    TickEffect::Nothing
                }
            },
        },
    }
}

/// The tick phases of the host's recurring scheduler under which a
/// callback can be registered.
#[derive(Clone, Copy, PartialEq, Eq, Structural, Debug)]
pub enum TaskGroup {
    /// Dispatched at the start of each simulation frame.
    FrameBegin,
    /// Dispatched at the end of each simulation frame.
    FrameEnd,
}

/// The registration record of the scheduler hook: the task group the
/// callback runs under, and the latch state it owns across invocations.
/// The registration lives for the rest of the process's life; there is no
/// unregistration.
pub struct Registration {
    pub group: TaskGroup,
    pub latch: DeathLatch,
}

impl Registration {
    /// A fresh registration under `group`, with the latch initially alive.
    pub fn new(group: TaskGroup) -> (r: Registration)
        ensures
            r.group == group,
            r.latch == DeathLatch::Alive,
    {
        Registration { group, latch: DeathLatch::Alive }
    }

    /// One tick invocation: advances the owned latch and returns the
    /// action to perform.  The task group never changes.
    pub fn on_tick(&mut self, obs: Observation) -> (e: TickEffect)
        ensures
            final(self).group == old(self).group,
            final(self).latch == latch_next(old(self).latch, obs),
            e == latch_effect(old(self).latch, obs),
    {
        latch_tick(&mut self.latch, obs)
    }
}

} // verus!
