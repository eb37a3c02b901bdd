use game_of_life::chance::bernoulli;

#[test]
fn chance_zero_never_succeeds() {
    for _ in 0..100 {
        assert!(!bernoulli(0, 10));
    }
}

#[test]
fn chance_one_always_succeeds() {
    for _ in 0..100 {
        assert!(bernoulli(10, 10));
    }
}

#[test]
fn certain_draw_from_single_outcome() {
    // The sampled value must lie below the denominator: with denominator 1
    // it can only be 0, so any positive numerator wins.
    assert!(bernoulli(1, 1));
}
