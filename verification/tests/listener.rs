use redis_kv::listener::{AcceptRetry, ListenerAction};

#[test]
fn five_failures_are_retried_and_the_sixth_shuts_down() {
    let mut r = AcceptRetry::new();
    assert_eq!(r.attempts_left(), 5);
    for left in (0..5).rev() {
        assert_eq!(r.on_accept(false), ListenerAction::RetryAfter { secs: 2 });
        assert_eq!(r.attempts_left(), left);
    }
    assert_eq!(r.on_accept(false), ListenerAction::Shutdown);
    assert_eq!(r.attempts_left(), -1);
}

#[test]
fn accepted_connections_are_served_and_cost_nothing() {
    let mut r = AcceptRetry::new();
    for _ in 0..10 {
        assert_eq!(r.on_accept(true), ListenerAction::Serve);
    }
    assert_eq!(r.attempts_left(), 5);
    assert_eq!(r.on_accept(false), ListenerAction::RetryAfter { secs: 2 });
    assert_eq!(r.on_accept(true), ListenerAction::Serve);
    assert_eq!(r.attempts_left(), 4);
}

#[test]
fn failures_count_across_successes() {
    let mut r = AcceptRetry::new();
    let mut actions = Vec::new();
    for i in 0..12 {
        actions.push(r.on_accept(i % 2 == 0));
    }
    // failures at odd steps: 1, 3, 5, 7, 9 retry; 11 shuts down
    assert_eq!(actions[9], ListenerAction::RetryAfter { secs: 2 });
    assert_eq!(actions[10], ListenerAction::Serve);
    assert_eq!(actions[11], ListenerAction::Shutdown);
}

#[test]
fn shutdown_is_final() {
    let mut r = AcceptRetry::new();
    for _ in 0..6 {
        r.on_accept(false);
    }
    assert_eq!(r.on_accept(true), ListenerAction::Shutdown);
    assert_eq!(r.on_accept(false), ListenerAction::Shutdown);
    assert_eq!(r.attempts_left(), -1);
}
