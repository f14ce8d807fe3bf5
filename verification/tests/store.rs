use std::sync::{Arc, Mutex};

use voice_cooldown::{Decision, RateLimitStore, UserStat, ALLOWED_VOICE_MESSAGE_DELAY};

const U1: i64 = 1001;
const U2: i64 = 1002;

fn stat(latest_voice_timestamp: i32, has_restricted_voice: bool) -> UserStat {
    UserStat { latest_voice_timestamp, has_restricted_voice }
}

#[test]
fn second_message_inside_window_restricts_for_good() {
    let mut store = RateLimitStore::with_cooldown_window(1800);
    assert_eq!(store.evaluate(U1, 0), Decision::FirstSeen);
    assert_eq!(store.stat(U1), Some(stat(0, false)));
    assert_eq!(store.evaluate(U1, 100), Decision::Restrict);
    assert_eq!(store.stat(U1), Some(stat(0, true)));
    assert_eq!(store.evaluate(U1, 5000), Decision::AlreadyRestricted);
    assert_eq!(store.stat(U1), Some(stat(0, true)));
}

#[test]
fn second_message_after_window_is_allowed() {
    let mut store = RateLimitStore::with_cooldown_window(1800);
    assert_eq!(store.evaluate(U2, 0), Decision::FirstSeen);
    assert_eq!(store.evaluate(U2, 2000), Decision::Allowed);
    assert_eq!(store.stat(U2), Some(stat(2000, false)));
}

#[test]
fn new_store_is_empty_and_uses_the_standard_window() {
    let store = RateLimitStore::new();
    assert_eq!(store.cooldown_window(), ALLOWED_VOICE_MESSAGE_DELAY);
    assert_eq!(store.cooldown_window(), 1_800_000);
    assert_eq!(store.stat(U1), None);
    assert_eq!(store.stat(0), None);
}

#[test]
fn store_keeps_the_window_it_was_made_with() {
    let mut store = RateLimitStore::with_cooldown_window(42);
    assert_eq!(store.cooldown_window(), 42);
    store.evaluate(U1, 0);
    store.evaluate(U1, 10);
    assert_eq!(store.cooldown_window(), 42);
}

// The standard window is thirty minutes counted in milliseconds, while the
// timestamps count seconds: a message 2000 s after the last one, well past
// thirty minutes, still restricts.
#[test]
fn standard_window_is_measured_in_timestamp_units() {
    let mut store = RateLimitStore::new();
    assert_eq!(store.evaluate(U2, 0), Decision::FirstSeen);
    assert_eq!(store.evaluate(U2, 2000), Decision::Restrict);
    assert_eq!(store.stat(U2), Some(stat(0, true)));
}

#[test]
fn standard_window_boundary() {
    let mut early = RateLimitStore::new();
    early.evaluate(U1, 0);
    assert_eq!(early.evaluate(U1, 1_799_999), Decision::Restrict);

    let mut exact = RateLimitStore::new();
    exact.evaluate(U1, 0);
    assert_eq!(exact.evaluate(U1, 1_800_000), Decision::Allowed);
    assert_eq!(exact.stat(U1), Some(stat(1_800_000, false)));
}

#[test]
fn window_boundary_is_inclusive() {
    let mut store = RateLimitStore::with_cooldown_window(1800);
    store.evaluate(U1, 500);
    assert_eq!(store.evaluate(U1, 2300), Decision::Allowed);
    assert_eq!(store.stat(U1), Some(stat(2300, false)));
    assert_eq!(store.evaluate(U1, 4099), Decision::Restrict);
    assert_eq!(store.stat(U1), Some(stat(2300, true)));
}

#[test]
fn fresh_user_gets_unrestricted_record() {
    let mut store = RateLimitStore::new();
    store.evaluate(U1, 77);
    assert_eq!(store.stat(U2), None);
    assert_eq!(store.evaluate(U2, -5), Decision::FirstSeen);
    assert_eq!(store.stat(U2), Some(stat(-5, false)));
    assert_eq!(store.stat(U1), Some(stat(77, false)));
}

#[test]
fn allowed_refreshes_the_timestamp_each_time() {
    let mut store = RateLimitStore::with_cooldown_window(10);
    store.evaluate(U1, 0);
    assert_eq!(store.evaluate(U1, 10), Decision::Allowed);
    assert_eq!(store.evaluate(U1, 25), Decision::Allowed);
    assert_eq!(store.stat(U1), Some(stat(25, false)));
    assert_eq!(store.evaluate(U1, 34), Decision::Restrict);
    assert_eq!(store.stat(U1), Some(stat(25, true)));
}

#[test]
fn restricted_user_stays_restricted_whatever_follows() {
    let mut store = RateLimitStore::with_cooldown_window(1800);
    store.evaluate(U1, 1000);
    assert_eq!(store.evaluate(U1, 1001), Decision::Restrict);
    let frozen = store.stat(U1);
    assert_eq!(frozen, Some(stat(1000, true)));
    for now in [1002, 5000, 1_000_000, i32::MAX, 0, i32::MIN] {
        store.evaluate(U2, now);
        assert_eq!(store.evaluate(U1, now), Decision::AlreadyRestricted);
        assert_eq!(store.stat(U1), frozen);
    }
}

#[test]
fn users_do_not_affect_each_other() {
    let mut store = RateLimitStore::with_cooldown_window(1800);
    store.evaluate(U1, 0);
    store.evaluate(U2, 0);
    assert_eq!(store.evaluate(U1, 100), Decision::Restrict);
    assert_eq!(store.stat(U2), Some(stat(0, false)));
    assert_eq!(store.evaluate(U2, 1800), Decision::Allowed);
    assert_eq!(store.stat(U1), Some(stat(0, true)));
    assert_eq!(store.stat(U2), Some(stat(1800, false)));
}

#[test]
fn timestamp_that_runs_backwards_restricts() {
    let mut store = RateLimitStore::with_cooldown_window(1800);
    store.evaluate(U1, 5000);
    assert_eq!(store.evaluate(U1, 4000), Decision::Restrict);
    assert_eq!(store.stat(U1), Some(stat(5000, true)));
}

#[test]
fn widest_differences_do_not_overflow() {
    let mut forward = RateLimitStore::new();
    forward.evaluate(U1, i32::MIN);
    assert_eq!(forward.evaluate(U1, i32::MAX), Decision::Allowed);
    assert_eq!(forward.stat(U1), Some(stat(i32::MAX, false)));

    let mut backward = RateLimitStore::new();
    backward.evaluate(U1, i32::MAX);
    assert_eq!(backward.evaluate(U1, i32::MIN), Decision::Restrict);
    assert_eq!(backward.stat(U1), Some(stat(i32::MAX, true)));

    let mut widest_window = RateLimitStore::with_cooldown_window(i32::MAX);
    widest_window.evaluate(U1, -1);
    assert_eq!(widest_window.evaluate(U1, i32::MAX - 2), Decision::Restrict);

    let mut still_widest = RateLimitStore::with_cooldown_window(i32::MAX);
    still_widest.evaluate(U1, -1);
    assert_eq!(still_widest.evaluate(U1, i32::MAX - 1), Decision::Allowed);
}

#[test]
fn negative_window_allows_small_steps_back() {
    let mut store = RateLimitStore::with_cooldown_window(-10);
    store.evaluate(U1, 100);
    assert_eq!(store.evaluate(U1, 90), Decision::Allowed);
    assert_eq!(store.stat(U1), Some(stat(90, false)));
    assert_eq!(store.evaluate(U1, 79), Decision::Restrict);
}

#[test]
fn zero_window_restricts_only_backwards_timestamps() {
    let mut store = RateLimitStore::with_cooldown_window(0);
    store.evaluate(U1, 7);
    assert_eq!(store.evaluate(U1, 7), Decision::Allowed);
    assert_eq!(store.evaluate(U1, 6), Decision::Restrict);
}

#[test]
fn two_evaluations_of_one_user_in_either_order() {
    let (t1, t2) = (100, 200);

    let mut in_order = RateLimitStore::with_cooldown_window(1800);
    assert_eq!(in_order.evaluate(U1, t1), Decision::FirstSeen);
    assert_eq!(in_order.evaluate(U1, t2), Decision::Restrict);
    assert_eq!(in_order.stat(U1), Some(stat(t1, true)));

    let mut reversed = RateLimitStore::with_cooldown_window(1800);
    assert_eq!(reversed.evaluate(U1, t2), Decision::FirstSeen);
    assert_eq!(reversed.evaluate(U1, t1), Decision::Restrict);
    assert_eq!(reversed.stat(U1), Some(stat(t2, true)));
}

#[test]
fn first_seen_and_restrict_come_once_per_user() {
    let mut store = RateLimitStore::with_cooldown_window(50);
    let times = [0, 60, 120, 130, 400, 405, 1000];
    let mut first_seen = 0;
    let mut restrict = 0;
    for now in times {
        store.evaluate(U2, now);
        match store.evaluate(U1, now) {
            Decision::FirstSeen => first_seen += 1,
            Decision::Restrict => restrict += 1,
            _ => {}
        }
    }
    assert_eq!(first_seen, 1);
    assert_eq!(restrict, 1);
    assert_eq!(store.stat(U1), Some(stat(120, true)));
}

#[test]
fn first_record_and_observe_follow_the_rule() {
    let first = UserStat::first(30);
    assert_eq!(first, stat(30, false));
    assert_eq!(first.observe(40, 10), (Decision::Allowed, stat(40, false)));
    assert_eq!(first.observe(39, 10), (Decision::Restrict, stat(30, true)));
    let restricted = stat(30, true);
    assert_eq!(restricted.observe(1_000_000, 10), (Decision::AlreadyRestricted, restricted));
}

#[test]
fn extreme_user_ids_are_ordinary_keys() {
    let mut store = RateLimitStore::with_cooldown_window(1800);
    assert_eq!(store.evaluate(i64::MIN, 1), Decision::FirstSeen);
    assert_eq!(store.evaluate(i64::MAX, 2), Decision::FirstSeen);
    assert_eq!(store.evaluate(0, 3), Decision::FirstSeen);
    assert_eq!(store.evaluate(-1, 4), Decision::FirstSeen);
    assert_eq!(store.stat(i64::MIN), Some(stat(1, false)));
    assert_eq!(store.stat(i64::MAX), Some(stat(2, false)));
    assert_eq!(store.stat(0), Some(stat(3, false)));
    assert_eq!(store.stat(-1), Some(stat(4, false)));
}

#[test]
fn concurrent_evaluations_serialize_behind_a_lock() {
    let (t1, t2) = (100, 200);
    let runtime = tokio::runtime::Builder::new_multi_thread().worker_threads(2).build().unwrap();
    for _ in 0..200 {
        let store = Arc::new(Mutex::new(RateLimitStore::with_cooldown_window(1800)));
        let tasks: Vec<_> = [t1, t2]
            .into_iter()
            .map(|now| {
                let store = Arc::clone(&store);
                runtime.spawn(async move { store.lock().unwrap().evaluate(U1, now) })
            })
            .collect();
        let decisions: Vec<Decision> =
            tasks.into_iter().map(|task| runtime.block_on(task).unwrap()).collect();
        let last = store.lock().unwrap().stat(U1);
        let t1_first = decisions == vec![Decision::FirstSeen, Decision::Restrict]
            && last == Some(stat(t1, true));
        let t2_first = decisions == vec![Decision::Restrict, Decision::FirstSeen]
            && last == Some(stat(t2, true));
        assert!(t1_first || t2_first);
    }
}
