use city_points::bisect::{
    search, Bisection, Fraction, CHART_ITERATIONS, CHART_UPPER_BOUND, MAX_ITERATIONS,
    QUERY_ITERATIONS, QUERY_UPPER_BOUND,
};

/// The point of the range `[0, upper]` that the fraction stands for.
fn value(point: Fraction, upper: f64) -> f64 {
    upper * (point.numerator as f64) / 2f64.powi(point.depth as i32)
}

fn ratio(p1: f64, p2: f64) -> f64 {
    p1.max(p2) / p1.min(p2).max(1.0)
}

/// The surface `w0 + w1 seats + w2 r + w3 r^2 + w4 direct` at the size ratio of the two cities.
fn required_sum(weights: &[f64; 5], seats: f64, p1: f64, p2: f64, direct: bool) -> f64 {
    let r = ratio(p1, p2);
    let features = [1.0, seats, r, r * r, if direct { 1.0 } else { 0.0 }];
    features.iter().zip(weights).map(|(f, w)| f * w).sum()
}

fn solve(weights: &[f64; 5], p1: f64, seats: f64, direct: bool) -> Option<(f64, f64)> {
    let upper = QUERY_UPPER_BOUND as f64;
    let found = search(QUERY_ITERATIONS, |mid: Fraction| {
        let p2 = value(mid, upper);
        p1 + p2 >= required_sum(weights, seats, p1, p2, direct)
    })?;
    let p2 = value(found, upper);
    Some((required_sum(weights, seats, p1, p2, direct), p2))
}

#[test]
fn search_plans_have_their_bounds_and_budgets() {
    assert_eq!(QUERY_UPPER_BOUND, 20000);
    assert_eq!(QUERY_ITERATIONS, 100);
    assert_eq!(CHART_UPPER_BOUND, 50000);
    assert_eq!(CHART_ITERATIONS, 60);
    assert_eq!(MAX_ITERATIONS, 126);
}

#[test]
fn constant_sum_leaves_the_difference() {
    let (sum, p2) = solve(&[100.0, 0.0, 0.0, 0.0, 0.0], 60.0, 0.0, false).unwrap();
    assert!((p2 - 40.0).abs() < 1.0);
    assert!((p2 - 40.0).abs() < 1e-9);
    assert!((sum - 100.0).abs() < 1e-9);
}

#[test]
fn ratio_term_is_solved_for_the_unknown_side() {
    let (sum, p2) = solve(&[100.0, 0.0, 10.0, 0.0, 0.0], 100.0, 0.0, false).unwrap();
    assert!((p2 - 31.6).abs() < 1.0);
    assert!((p2 - 1000f64.sqrt()).abs() < 1e-6);
    assert!((100.0 + p2 - sum).abs() < 1e-6);
}

#[test]
fn solving_twice_gives_the_same_point() {
    let weights = [100.0, 0.5, 10.0, 2.0, -5.0];
    let first = solve(&weights, 250.0, 180.0, true);
    let second = solve(&weights, 250.0, 180.0, true);
    assert!(first.is_some());
    assert_eq!(first, second);
}

#[test]
fn zero_known_side_does_not_divide_by_zero() {
    let (sum, p2) = solve(&[100.0, 0.0, 0.0, 0.0, 0.0], 0.0, 0.0, false).unwrap();
    assert!(sum.is_finite());
    assert!((p2 - 100.0).abs() < 1e-6);
    assert_eq!(ratio(0.0, 0.0), 0.0);
    assert_eq!(ratio(0.0, 50.0), 50.0);
}

#[test]
fn a_sum_beyond_the_range_has_no_solution() {
    assert_eq!(solve(&[30000.0, 0.0, 0.0, 0.0, 0.0], 100.0, 0.0, false), None);
    assert_eq!(search(CHART_ITERATIONS, |_mid: Fraction| false), None);
}

#[test]
fn a_zero_answer_differs_from_no_answer() {
    let found = search(QUERY_ITERATIONS, |_mid: Fraction| true);
    assert_eq!(found, Some(Fraction { numerator: 1, depth: 100 }));
    let p2 = value(found.unwrap(), QUERY_UPPER_BOUND as f64);
    assert!(p2 > 0.0 && p2 < 1e-20);
}

#[test]
fn search_finds_the_least_feasible_point_of_the_grid() {
    for threshold in 1u128..8 {
        let found = search(3, |mid: Fraction| (mid.numerator << (3 - mid.depth)) >= threshold);
        assert_eq!(found, Some(Fraction { numerator: threshold, depth: 3 }));
    }
    assert_eq!(search(3, |mid: Fraction| (mid.numerator << (3 - mid.depth)) >= 8), None);
}

#[test]
fn search_without_halvings_finds_nothing() {
    assert_eq!(search(0, |_mid: Fraction| true), None);
}

#[test]
fn search_with_the_largest_budget() {
    let found = search(MAX_ITERATIONS, |mid: Fraction| mid.depth == 1);
    assert_eq!(found, Some(Fraction { numerator: 1u128 << 125, depth: 126 }));
    let none = search(MAX_ITERATIONS, |_mid: Fraction| false);
    assert_eq!(none, None);
}

#[test]
fn a_search_takes_at_most_the_largest_budget() {
    assert!(Bisection::new(0).is_some());
    assert!(Bisection::new(MAX_ITERATIONS).is_some());
    assert!(Bisection::new(MAX_ITERATIONS + 1).is_none());
    assert!(Bisection::new(u32::MAX).is_none());
}

#[test]
fn stepping_by_hand_halves_the_interval() {
    let mut state = Bisection::new(3).unwrap();
    assert!(!state.is_done());
    assert_eq!(state.best(), None);
    assert_eq!(state.probe(), Fraction { numerator: 1, depth: 1 });
    state.record(false);
    assert_eq!(state.best(), None);
    assert_eq!(state.probe(), Fraction { numerator: 3, depth: 2 });
    state.record(true);
    assert_eq!(state.best(), Some(Fraction { numerator: 3, depth: 2 }));
    assert_eq!(state.probe(), Fraction { numerator: 5, depth: 3 });
    state.record(false);
    assert!(state.is_done());
    assert_eq!(state.best(), Some(Fraction { numerator: 6, depth: 3 }));
}

#[test]
fn chart_search_agrees_with_the_query_search_to_display_precision() {
    let weights = [100.0, 0.0, 10.0, 0.0, 0.0];
    let upper = CHART_UPPER_BOUND as f64;
    let found = search(CHART_ITERATIONS, |mid: Fraction| {
        let p2 = value(mid, upper);
        100.0 + p2 >= required_sum(&weights, 0.0, 100.0, p2, false)
    })
    .unwrap();
    let (_, p2) = solve(&weights, 100.0, 0.0, false).unwrap();
    assert!((value(found, upper) - p2).abs() < 1e-6);
}
