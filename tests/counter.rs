use std::sync::Mutex;

use request_counter::counter::{increment_after_lock, Counter, CounterError};
use request_counter::render::{append_decimal, counter_body, hello_body, welcome_body};
use request_counter::routes::counter_route_handler;

#[test]
fn three_sequential_calls_return_one_two_three() {
    let mut c = Counter::new();
    let got: Vec<u64> = vec![c.increment_and_get(), c.increment_and_get(), c.increment_and_get()];
    assert_eq!(got, vec![1, 2, 3]);
}

#[test]
fn fresh_counter_is_zero_and_first_call_returns_one() {
    let mut c = Counter::new();
    assert_eq!(c.value(), 0);
    assert_eq!(c.increment_and_get(), 1);
    assert_eq!(c.value(), 1);
}

#[test]
fn reading_does_not_change_the_count() {
    let mut c = Counter::new();
    c.increment_and_get();
    c.increment_and_get();
    for _ in 0..10 {
        assert_eq!(c.value(), 2);
    }
    assert_eq!(c.increment_and_get(), 3);
}

#[test]
fn returned_values_are_one_to_n_without_gaps() {
    let mut c = Counter::new();
    let mut got: Vec<u64> = Vec::new();
    for _ in 0..50 {
        got.push(c.increment_and_get());
    }
    let want: Vec<u64> = (1..=50).collect();
    assert_eq!(got, want);
    for w in got.windows(2) {
        assert!(w[0] < w[1]);
    }
}

#[test]
fn many_callers_lose_no_update() {
    let shared = Mutex::new(Counter::new());
    let callers: u64 = 100;
    let each: u64 = 1000;
    for _ in 0..callers {
        for _ in 0..each {
            let mut guard = shared.lock().unwrap();
            let r = increment_after_lock(&mut guard, false);
            assert!(r.is_ok());
        }
    }
    assert_eq!(shared.lock().unwrap().value(), 100000);
}

#[test]
fn poisoned_lock_reports_error_and_keeps_count() {
    let mut c = Counter::new();
    c.increment_and_get();
    assert_eq!(increment_after_lock(&mut c, true), Err(CounterError::InternalStateCorrupted));
    assert_eq!(c.value(), 1);
    assert_eq!(increment_after_lock(&mut c, false), Ok(2));
    assert_eq!(c.value(), 2);
}

#[test]
fn can_increment_on_fresh_counter() {
    let c = Counter::new();
    assert!(c.can_increment());
}

#[test]
fn counter_route_renders_new_count() {
    let mut c = Counter::new();
    assert_eq!(counter_route_handler(&mut c, false), Ok("Request number: 1".to_string()));
    assert_eq!(counter_route_handler(&mut c, false), Ok("Request number: 2".to_string()));
    assert_eq!(c.value(), 2);
}

#[test]
fn counter_route_on_poisoned_lock() {
    let mut c = Counter::new();
    assert_eq!(counter_route_handler(&mut c, true), Err(CounterError::InternalStateCorrupted));
    assert_eq!(c.value(), 0);
}

#[test]
fn hello_route_body() {
    assert_eq!(hello_body(), "Hello World");
}

#[test]
fn counter_body_for_several_counts() {
    assert_eq!(counter_body(0), "Request number: 0");
    assert_eq!(counter_body(9), "Request number: 9");
    assert_eq!(counter_body(10), "Request number: 10");
    assert_eq!(counter_body(100000), "Request number: 100000");
    assert_eq!(counter_body(u64::MAX), "Request number: 18446744073709551615");
}

#[test]
fn welcome_body_names_friend_and_id() {
    assert_eq!(welcome_body(42, "alice"), "Welcome alice, user_id 42!");
    assert_eq!(welcome_body(0, ""), "Welcome , user_id 0!");
    assert_eq!(welcome_body(u32::MAX, "bob"), "Welcome bob, user_id 4294967295!");
}

#[test]
fn append_decimal_keeps_prefix() {
    let mut s = String::from("n=");
    append_decimal(&mut s, 1234567890);
    assert_eq!(s, "n=1234567890");
}
