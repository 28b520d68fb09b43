use wifi_onboard::admission::{
    conclude, elapsed_between, nanos_from_secs, Admission, CooldownState, NANOS_PER_SECOND,
};
use wifi_onboard::error::RequestError;

const SECOND: u128 = 1_000_000_000;

#[test]
fn seconds_in_nanoseconds() {
    assert_eq!(NANOS_PER_SECOND, 1_000_000_000);
    assert_eq!(nanos_from_secs(0), 0);
    assert_eq!(nanos_from_secs(5), 5_000_000_000);
    assert_eq!(nanos_from_secs(u64::MAX), 18_446_744_073_709_551_615_000_000_000);
}

#[test]
fn elapsed_is_the_difference_or_zero() {
    assert_eq!(elapsed_between(3, 10), 7);
    assert_eq!(elapsed_between(10, 10), 0);
    assert_eq!(elapsed_between(10, 3), 0);
    assert_eq!(elapsed_between(0, u128::MAX), u128::MAX);
}

#[test]
fn a_fresh_record_has_let_nothing_pass() {
    let state = CooldownState::with_cooldown(5 * SECOND);
    assert_eq!(state.cooldown(), 5 * SECOND);
    assert_eq!(state.last_request_at(), None);
}

#[test]
fn five_second_cooldown_scenario() {
    let mut state = CooldownState::with_cooldown(nanos_from_secs(5));
    assert_eq!(state.on_request(0), Admission::Forward);
    assert_eq!(state.last_request_at(), Some(0));
    assert_eq!(state.on_request(2 * SECOND), Admission::TooManyRequests);
    assert_eq!(state.last_request_at(), Some(0));
    assert_eq!(state.on_request(6 * SECOND), Admission::Forward);
    assert_eq!(state.last_request_at(), Some(6 * SECOND));
}

#[test]
fn the_first_request_passes_whenever_it_comes() {
    for cooldown in [0, 1, 5 * SECOND, u128::MAX] {
        for now in [0, 1, 4 * SECOND, 5 * SECOND, u128::MAX] {
            let mut state = CooldownState::with_cooldown(cooldown);
            assert_eq!(state.on_request(now), Admission::Forward);
            assert_eq!(state.last_request_at(), Some(now));
            assert_eq!(state.cooldown(), cooldown);
        }
    }
}

#[test]
fn a_request_exactly_at_the_cooldown_is_turned_away() {
    let mut state = CooldownState::with_cooldown(5 * SECOND);
    assert_eq!(state.on_request(10 * SECOND), Admission::Forward);
    assert_eq!(state.on_request(15 * SECOND), Admission::TooManyRequests);
    assert_eq!(state.last_request_at(), Some(10 * SECOND));
    assert_eq!(state.on_request(15 * SECOND + 1), Admission::Forward);
    assert_eq!(state.last_request_at(), Some(15 * SECOND + 1));
}

#[test]
fn a_rejected_request_does_not_extend_the_wait() {
    let mut state = CooldownState::with_cooldown(5 * SECOND);
    assert_eq!(state.on_request(6 * SECOND), Admission::Forward);
    assert_eq!(state.on_request(10 * SECOND), Admission::TooManyRequests);
    // 11 s is more than 5 s after 6 s, though only 1 s after the rejected one.
    assert_eq!(state.on_request(11 * SECOND + 1), Admission::Forward);
}

#[test]
fn a_clock_reading_before_the_last_request_is_turned_away() {
    let mut state = CooldownState::with_cooldown(0);
    assert_eq!(state.on_request(50), Admission::Forward);
    assert_eq!(state.on_request(40), Admission::TooManyRequests);
    assert_eq!(state.last_request_at(), Some(50));
}

#[test]
fn a_zero_cooldown_still_needs_time_to_pass() {
    let mut state = CooldownState::with_cooldown(0);
    assert_eq!(state.on_request(50), Admission::Forward);
    assert_eq!(state.on_request(50), Admission::TooManyRequests);
    assert_eq!(state.on_request(51), Admission::Forward);
    assert_eq!(state.on_request(51), Admission::TooManyRequests);
}

#[test]
fn increasing_arrivals_follow_the_rule() {
    let cooldown = 5 * SECOND;
    let arrivals: [u128; 8] = [1, 6, 7, 11, 12, 13, 20, 26];
    let mut state = CooldownState::with_cooldown(cooldown);
    let mut last_admitted: Option<u128> = None;
    let mut decisions = Vec::new();
    for secs in arrivals {
        let now = secs * SECOND;
        let expected = match last_admitted {
            None => true,
            Some(last) => now - last > cooldown,
        };
        let decision = state.on_request(now);
        assert_eq!(decision == Admission::Forward, expected);
        if expected {
            last_admitted = Some(now);
        }
        assert_eq!(state.last_request_at(), last_admitted);
        assert_eq!(state.cooldown(), cooldown);
        decisions.push(decision == Admission::Forward);
    }
    assert_eq!(decisions, vec![true, false, true, false, false, true, true, true]);
}

#[test]
fn of_simultaneous_requests_exactly_one_passes() {
    for n in [1usize, 2, 3, 10, 100] {
        // Once on a fresh record, once on one that has let a request pass.
        for warmed_up in [false, true] {
            let mut state = CooldownState::with_cooldown(5 * SECOND);
            if warmed_up {
                assert_eq!(state.on_request(SECOND), Admission::Forward);
            }
            let now = 9 * SECOND;
            let mut passed = 0;
            for k in 0..n {
                let decision = state.on_request(now);
                if decision == Admission::Forward {
                    passed += 1;
                    assert_eq!(k, 0);
                }
            }
            assert_eq!(passed, 1);
            assert_eq!(state.last_request_at(), Some(now));
        }
    }
}

#[test]
fn of_simultaneous_requests_within_the_cooldown_none_passes() {
    let mut state = CooldownState::with_cooldown(5 * SECOND);
    assert_eq!(state.on_request(0), Admission::Forward);
    for _ in 0..10 {
        assert_eq!(state.on_request(5 * SECOND), Admission::TooManyRequests);
    }
    assert_eq!(state.last_request_at(), Some(0));
}

#[test]
fn success_downstream_is_success() {
    let outcome: Result<(), String> = Ok(());
    assert_eq!(conclude(outcome), Ok(()));
}

#[test]
fn failure_downstream_becomes_the_generic_failure() {
    let outcome: Result<(), String> = Err(String::from("connection reset"));
    assert_eq!(conclude(outcome), Err(RequestError::RequestHandling));
    let other: Result<(), u8> = Err(3);
    assert_eq!(conclude(other), Err(RequestError::RequestHandling));
}
