use shardpix::EvictionAction;
use shardpix::EvictionEvent;
use shardpix::EvictionPhase;
use shardpix::EvictionScheduler;

#[test]
fn full_cycle() {
    let s = EvictionScheduler::new(2);
    assert_eq!(s.phase, EvictionPhase::Idle);

    let (s, a) = s.step(EvictionEvent::TimerFired);
    assert_eq!(a, EvictionAction::AcquireSlot);
    assert_eq!(s.phase, EvictionPhase::Acquiring);

    let (s, a) = s.step(EvictionEvent::SlotAcquired);
    assert_eq!(a, EvictionAction::PollGuard);
    assert_eq!(s.phase, EvictionPhase::Draining);

    // readers still mid-flight: keep polling
    let (s, a) = s.step(EvictionEvent::GuardCount { count: 5 });
    assert_eq!(a, EvictionAction::PollGuard);
    assert_eq!(s.phase, EvictionPhase::Draining);

    let (s, a) = s.step(EvictionEvent::GuardCount { count: 3 });
    assert_eq!(a, EvictionAction::PollGuard);
    assert_eq!(s.phase, EvictionPhase::Draining);

    // quiescent: only the baseline references remain
    let (s, a) = s.step(EvictionEvent::GuardCount { count: 2 });
    assert_eq!(a, EvictionAction::WipeCache);
    assert_eq!(s.phase, EvictionPhase::Evicting);

    let (s, a) = s.step(EvictionEvent::CacheCleared);
    assert_eq!(a, EvictionAction::ReleaseSlot);
    assert_eq!(s.phase, EvictionPhase::Idle);
}

#[test]
fn wipe_never_ordered_above_baseline() {
    let s = EvictionScheduler { phase: EvictionPhase::Draining, baseline: 2 };
    for count in 3..10usize {
        let (_, a) = s.step(EvictionEvent::GuardCount { count });
        assert_ne!(a, EvictionAction::WipeCache, "count {}", count);
    }
    let (_, a) = s.step(EvictionEvent::GuardCount { count: 0 });
    assert_eq!(a, EvictionAction::WipeCache);
}

#[test]
fn stray_events_change_nothing() {
    let s = EvictionScheduler::new(2);
    let (s2, a) = s.step(EvictionEvent::CacheCleared);
    assert_eq!(a, EvictionAction::Wait);
    assert_eq!(s2, s);
}
