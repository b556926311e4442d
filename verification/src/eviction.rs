use vstd::prelude::*;

verus! {

/// Where the eviction scheduler stands in its periodic cycle.
#[derive(Debug, Clone, Copy, PartialEq, Eq, Structural)]
pub enum EvictionPhase {
    /// Waiting for the timer.
    Idle,
    /// The timer fired; the exclusive flush slot is being acquired.
    Acquiring,
    /// The slot is held; polling the guard until no request is mid-flight.
    Draining,
    /// Quiescence was observed; the cache tree is being wiped and recreated.
    Evicting,
}

/// What the scheduler observes.
#[derive(Debug, Clone, Copy, PartialEq, Eq, Structural)]
pub enum EvictionEvent {
    TimerFired,
    SlotAcquired,
    /// The guard token's outstanding-reference count as read just now.
    GuardCount { count: usize },
    CacheCleared,
}

/// What the scheduler must do next.
#[derive(Debug, Clone, Copy, PartialEq, Eq, Structural)]
pub enum EvictionAction {
    /// Keep waiting for the timer.
    Wait,
    /// Lock the exclusive flush slot.
    AcquireSlot,
    /// Sleep briefly and read the guard count again.
    PollGuard,
    /// Delete the whole cache directory tree and recreate it empty.
    WipeCache,
    /// Release the slot and return to waiting.
    ReleaseSlot,
}

/// The eviction scheduler: a background loop that periodically wipes the
/// derived-artifact cache, after draining in-flight readers cooperatively.
/// `baseline` is the guard count that means "no request holds the guard"
/// (the static reference plus the scheduler's own).
#[derive(Debug, Clone, Copy, PartialEq, Eq, Structural)]
pub struct EvictionScheduler {
    pub phase: EvictionPhase,
    pub baseline: usize,
}

/// One transition of the scheduler. Events that cannot occur in the current
/// phase change nothing.
pub open spec fn eviction_step_spec(s: EvictionScheduler, e: EvictionEvent) -> (
    EvictionScheduler,
    EvictionAction,
) {
    match (s.phase, e) {
        (EvictionPhase::Idle, EvictionEvent::TimerFired) => (
            EvictionScheduler { phase: EvictionPhase::Acquiring, ..s },
            EvictionAction::AcquireSlot,
        ),
        (EvictionPhase::Acquiring, EvictionEvent::SlotAcquired) => (
            EvictionScheduler { phase: EvictionPhase::Draining, ..s },
            EvictionAction::PollGuard,
        ),
        (EvictionPhase::Draining, EvictionEvent::GuardCount { count }) => if count > s.baseline {
            (s, EvictionAction::PollGuard)
        } else {
            (EvictionScheduler { phase: EvictionPhase::Evicting, ..s }, EvictionAction::WipeCache)
        },
        (EvictionPhase::Evicting, EvictionEvent::CacheCleared) => (
            EvictionScheduler { phase: EvictionPhase::Idle, ..s },
            EvictionAction::ReleaseSlot,
        ),
        _ => (s, EvictionAction::Wait),
    }
}

impl EvictionScheduler {
    pub fn new(baseline: usize) -> (r: Self)
        ensures
            r == (EvictionScheduler { phase: EvictionPhase::Idle, baseline }),
    {
        EvictionScheduler { phase: EvictionPhase::Idle, baseline }
    }

    /// Feeds one observation to the scheduler and yields the next action.
    pub fn step(self, event: EvictionEvent) -> (r: (Self, EvictionAction))
        ensures
            r == eviction_step_spec(self, event),
    {
        match (self.phase, event) {
            (EvictionPhase::Idle, EvictionEvent::TimerFired) => (
                EvictionScheduler { phase: EvictionPhase::Acquiring, ..self },
                EvictionAction::AcquireSlot,
            ),
            (EvictionPhase::Acquiring, EvictionEvent::SlotAcquired) => (
                EvictionScheduler { phase: EvictionPhase::Draining, ..self },
                EvictionAction::PollGuard,
            ),
            (EvictionPhase::Draining, EvictionEvent::GuardCount { count }) => if count
                > self.baseline {
                (self, EvictionAction::PollGuard)
            } else {
                (
                    EvictionScheduler { phase: EvictionPhase::Evicting, ..self },
                    EvictionAction::WipeCache,
                )
            },
            (EvictionPhase::Evicting, EvictionEvent::CacheCleared) => (
                EvictionScheduler { phase: EvictionPhase::Idle, ..self },
                EvictionAction::ReleaseSlot,
            ),
            _ => (self, EvictionAction::Wait),
        }
    }
}

/// Law (drain before wipe): the scheduler orders the cache wiped only from
/// the draining phase, and only on an observation that no more than the
/// quiescent baseline of guard references is outstanding.
pub proof fn lemma_wipe_only_after_drain(s: EvictionScheduler, e: EvictionEvent)
    ensures
        eviction_step_spec(s, e).1 == EvictionAction::WipeCache ==> (s.phase
            == EvictionPhase::Draining && (e matches EvictionEvent::GuardCount { count } && count
            <= s.baseline)),
{
}

} // verus!
