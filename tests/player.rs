use taxi_gt::player::{required_exponent, PlayerHealth, FIRST_REQUIRED_EARNINGS};

#[test]
fn new_player_needs_first_requirement() {
    let p = PlayerHealth::new();
    assert_eq!(p.time_limit_required_earnings, FIRST_REQUIRED_EARNINGS);
    assert_eq!(p.earnings, 0);
    assert_eq!(p.total_earnings, 0);
    assert_eq!(p.cycles_completed, 0);
}

#[test]
fn earn_adds_to_both_totals() {
    let mut p = PlayerHealth::new();
    p.earn(8);
    p.earn(12);
    assert_eq!(p.earnings, 20);
    assert_eq!(p.total_earnings, 20);
}

#[test]
fn time_up_with_enough_earnings_starts_next_cycle() {
    let mut p = PlayerHealth::new();
    p.earn(51);
    assert!(p.time_up(58));
    assert_eq!(p.cycles_completed, 1);
    assert_eq!(p.earnings, 0);
    assert_eq!(p.total_earnings, 51);
    assert_eq!(p.time_limit_required_earnings, 58);
}

#[test]
fn time_up_with_exactly_required_is_game_over() {
    let mut p = PlayerHealth::new();
    p.earn(50);
    assert!(!p.time_up(58));
    assert_eq!(p, {
        let mut q = PlayerHealth::new();
        q.earn(50);
        q
    });
}

#[test]
fn required_exponent_steps() {
    assert_eq!(required_exponent(0), 0);
    assert_eq!(required_exponent(1), 20);
    assert_eq!(required_exponent(9), 180);
    assert_eq!(required_exponent(10), 220);
    assert_eq!(required_exponent(29), 258);
    assert_eq!(required_exponent(30), 258);
    assert_eq!(required_exponent(1000), 258);
}
