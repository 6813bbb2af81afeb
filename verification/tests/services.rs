use dual_server::counter::{increment, increment_counter_reply};
use dual_server::messages::{health_check, MyGreeter};

#[test]
fn say_hello_world() {
    let g = MyGreeter;
    assert_eq!(g.say_hello("World"), "Hello World!");
}

#[test]
fn say_hello_empty_name_is_not_special_cased() {
    let g = MyGreeter;
    assert_eq!(g.say_hello(""), "Hello !");
}

#[test]
fn say_hello_arbitrary_name() {
    let g = MyGreeter::default();
    assert_eq!(g.say_hello("Ada Lovelace"), "Hello Ada Lovelace!");
}

#[test]
fn health_check_is_200_with_static_body() {
    let r = health_check();
    assert_eq!(r.status, 200);
    assert_eq!(r.body, "API is up and running!");
}

#[test]
fn health_check_is_stable_across_calls() {
    // Liveness, not backend readiness: the reply never varies.
    let a = health_check();
    let b = health_check();
    assert_eq!(a.body, b.body);
    assert_eq!(a.status, b.status);
}

#[test]
fn increment_returns_the_new_value() {
    assert_eq!(increment(0), 1);
    assert_eq!(increment(41), 42);
    assert_eq!(increment(-3), -2);
    assert_eq!(increment(i64::MAX - 1), i64::MAX);
}

#[test]
fn sequential_increments_lose_no_update() {
    let mut count: i64 = 7;
    for _ in 0..100 {
        count = increment(count);
    }
    assert_eq!(count, 107);
}

#[test]
fn increment_reply_passes_the_row_through() {
    let r = increment_counter_reply(Ok(42));
    assert_eq!(r, Ok(42));
}

#[test]
fn increment_reply_wraps_database_errors() {
    let r = increment_counter_reply(Err(String::from("connection reset")));
    assert_eq!(r, Err(String::from("DB Error: connection reset")));
}
