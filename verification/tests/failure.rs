use realmkbot::failure::{react, FailureKind, Phase, Reaction};

#[test]
fn throttling_is_always_retried() {
    for phase in [Phase::Startup, Phase::Backfill, Phase::Live] {
        assert_eq!(react(phase, FailureKind::RateLimited), Reaction::Retry);
    }
}

#[test]
fn unreadable_items_are_always_skipped() {
    for phase in [Phase::Startup, Phase::Backfill, Phase::Live] {
        assert_eq!(react(phase, FailureKind::Malformed), Reaction::Skip);
    }
}

#[test]
fn failures_end_the_backfill() {
    assert_eq!(react(Phase::Backfill, FailureKind::Remote), Reaction::Abort);
    assert_eq!(react(Phase::Backfill, FailureKind::Storage), Reaction::Abort);
}

#[test]
fn failures_end_the_startup() {
    assert_eq!(react(Phase::Startup, FailureKind::Remote), Reaction::Abort);
    assert_eq!(react(Phase::Startup, FailureKind::Storage), Reaction::Abort);
}

#[test]
fn failures_cost_one_update_of_the_feed() {
    assert_eq!(react(Phase::Live, FailureKind::Remote), Reaction::Skip);
    assert_eq!(react(Phase::Live, FailureKind::Storage), Reaction::Skip);
}
