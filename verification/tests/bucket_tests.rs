use axiom_shell::bucket::TokenBucket;
use axiom_shell::resilience::TrafficController;

#[test]
fn fresh_bucket_is_full_and_consumes() {
    let mut b = TokenBucket::new(10, 1_000);
    assert_eq!(b.tokens_milli, 10_000);
    assert!(b.try_consume_at(1_000));
    assert_eq!(b.tokens_milli, 9_000);
}

#[test]
fn bucket_refuses_when_empty_and_refills_lazily() {
    let mut b = TokenBucket::new(1, 0);
    assert!(b.try_consume_at(0));
    // Within the same millisecond nothing refilled: refusal.
    assert!(!b.try_consume_at(0));
    // 100 ms at 1 rps is a tenth of a token: still a refusal.
    assert!(!b.try_consume_at(100));
    // A full second refills one whole token.
    assert!(b.try_consume_at(1_100));
}

#[test]
fn bucket_level_never_exceeds_capacity() {
    let mut b = TokenBucket::new(5, 0);
    // A long idle period refills at most to capacity.
    assert!(b.try_consume_at(1_000_000));
    assert_eq!(b.tokens_milli, 4_000);
    assert!(b.tokens_milli <= b.fill_rate * 1000);
}

#[test]
fn window_consumption_is_bounded_by_rate_and_capacity() {
    // Rate 2, window of 3 seconds starting full: at most 2 + 2*3 = 8
    // consumptions can succeed, whatever the interleaving.
    let mut b = TokenBucket::new(2, 0);
    let mut successes = 0u64;
    let mut t = 0u64;
    while t <= 3_000 {
        if b.try_consume_at(t) {
            successes += 1;
        }
        t += 50;
    }
    assert!(successes <= 8);
    assert!(successes >= 2);
}

#[test]
fn upstream_rps_one_blocks_back_to_back_requests() {
    let mut traffic = TrafficController::new();
    // Tenant configured at one request per second: two requests within
    // 100 ms see the first pass and the second refused.
    assert!(traffic.check_upstream("t", 1, 10_000));
    assert!(!traffic.check_upstream("t", 1, 10_100));
    // A second later the next one passes again.
    assert!(traffic.check_upstream("t", 1, 11_100));
}
