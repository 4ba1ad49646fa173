use prompt_pipeline::rate_limiter::RateLimiter;

#[test]
fn admits_up_to_limit_then_denies_within_window() {
    let mut limiter = RateLimiter::new(3, 1000);
    let client = String::from("alice");
    assert!(limiter.allow(&client, 0));
    assert!(limiter.allow(&client, 100));
    assert!(limiter.allow(&client, 200));
    // The (M+1)-th call inside the window is denied.
    assert!(!limiter.allow(&client, 900));
    // Still denied while all three stamps are inside the window.
    assert!(!limiter.allow(&client, 950));
}

#[test]
fn readmits_once_earliest_call_ages_out() {
    let mut limiter = RateLimiter::new(3, 1000);
    let client = String::from("alice");
    assert!(limiter.allow(&client, 0));
    assert!(limiter.allow(&client, 100));
    assert!(limiter.allow(&client, 200));
    assert!(!limiter.allow(&client, 900));
    // At 1001 the call recorded at 0 is older than the window, so a slot
    // frees up.
    assert!(limiter.allow(&client, 1001));
    // The window now holds 100, 200, 1001: full again.
    assert!(!limiter.allow(&client, 1002));
}

#[test]
fn denial_does_not_consume_a_slot() {
    let mut limiter = RateLimiter::new(1, 1000);
    let client = String::from("alice");
    assert!(limiter.allow(&client, 0));
    assert!(!limiter.allow(&client, 10));
    assert!(!limiter.allow(&client, 20));
    // Only the admitted call at 0 occupies the window; once it ages out,
    // the client is admitted again, denials notwithstanding.
    assert!(limiter.allow(&client, 1001));
}

#[test]
fn clients_are_independent() {
    let mut limiter = RateLimiter::new(2, 1000);
    let alice = String::from("alice");
    let bob = String::from("bob");
    assert!(limiter.allow(&alice, 0));
    assert!(limiter.allow(&alice, 1));
    assert!(!limiter.allow(&alice, 2));
    // Bob's window is untouched by Alice's.
    assert!(limiter.allow(&bob, 2));
    assert!(limiter.allow(&bob, 3));
    assert!(!limiter.allow(&bob, 4));
}

#[test]
fn unseen_client_is_admitted_immediately() {
    let mut limiter = RateLimiter::new(5, 50);
    assert!(limiter.allow(&String::from("fresh"), 12345));
}
