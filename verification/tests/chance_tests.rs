use be_low_level::chance::{Odds, WIN_QUOTA};
use be_low_level::handlers::Draws;

#[test]
fn quota_is_thirty() {
    assert_eq!(WIN_QUOTA, 30);
}

#[test]
fn odds_tiers_are_seven_and_four_in_ten() {
    assert_eq!((Odds::high().numerator(), Odds::high().denominator()), (7, 10));
    assert_eq!((Odds::reduced().numerator(), Odds::reduced().denominator()), (4, 10));
}

#[test]
fn odds_below_quota_are_high() {
    for wins in [0u64, 1, 15, 28, 29] {
        assert_eq!(Odds::for_wins(wins), Odds::high(), "{wins}");
    }
}

#[test]
fn odds_from_quota_on_are_reduced() {
    for wins in [30u64, 31, 100, u64::MAX] {
        assert_eq!(Odds::for_wins(wins), Odds::reduced(), "{wins}");
    }
}

#[test]
fn odds_boundary_is_exactly_thirty() {
    assert_eq!(Odds::for_wins(29).numerator(), 7);
    assert_eq!(Odds::for_wins(30).numerator(), 4);
    assert_eq!(Odds::for_wins(29).denominator(), 10);
    assert_eq!(Odds::for_wins(30).denominator(), 10);
}

#[test]
fn odds_new_accepts_chances_between_never_and_always() {
    assert!(Odds::new(0, 1).is_some());
    assert!(Odds::new(1, 1).is_some());
    assert!(Odds::new(7, 10).is_some());
    assert_eq!(Odds::new(7, 10).unwrap(), Odds::high());
    assert!(Odds::new(1, 0).is_none());
    assert!(Odds::new(0, 0).is_none());
    assert!(Odds::new(11, 10).is_none());
    assert!(Odds::new(u32::MAX, u32::MAX).is_some());
}

#[test]
fn certain_odds_draw_certainly() {
    let always = Odds::new(5, 5).unwrap();
    let never = Odds::new(0, 5).unwrap();
    for _ in 0..200 {
        assert!(always.draw());
        assert!(!never.draw());
    }
}

fn frequency(odds: Odds, rounds: u32) -> f64 {
    let mut wins = 0u32;
    for _ in 0..rounds {
        if odds.draw() {
            wins += 1;
        }
    }
    wins as f64 / rounds as f64
}

#[test]
fn high_odds_win_about_seven_times_in_ten() {
    let seen = frequency(Odds::for_wins(0), 20000);
    assert!((seen - 0.7).abs() < 0.05, "{seen}");
}

#[test]
fn reduced_odds_win_about_four_times_in_ten() {
    let seen = frequency(Odds::for_wins(30), 20000);
    assert!((seen - 0.4).abs() < 0.05, "{seen}");
}

#[test]
fn draws_consult_the_tier_that_applies() {
    let draws = Draws { at_high: true, at_reduced: false };
    assert!(draws.outcome(0));
    assert!(draws.outcome(29));
    assert!(!draws.outcome(30));
    assert!(!draws.outcome(u64::MAX));
    let other = Draws { at_high: false, at_reduced: true };
    assert!(!other.outcome(29));
    assert!(other.outcome(30));
}
