use risk_engine::margin::{CAPITAL, MAX_MAGNITUDE};
use risk_engine::{
    assess_pretrade, circuit_breaker, margin_calc, pretrade_check, request_within_limits,
    stress_test, Breach, CircuitBreakerRequest, Decimal, Fraction, Level, MarginRequest, Position,
    PreTradeCheckRequest, Reason, Stats, StatsEvent, StressTestRequest, MICROS_PER_UNIT,
};

fn units(x: i64) -> i64 {
    x * MICROS_PER_UNIT
}

fn order(quantity: i64, price: i64) -> PreTradeCheckRequest {
    PreTradeCheckRequest {
        account: "ACC-1".to_string(),
        instrument: "AAPL".to_string(),
        side: "buy".to_string(),
        quantity,
        price,
    }
}

fn position(quantity: i64, price: i64) -> Position {
    Position { instrument: "AAPL".to_string(), quantity, price }
}

fn margin_of(positions: Option<Vec<Position>>) -> risk_engine::MarginResponse {
    margin_calc(&MarginRequest { account: "ACC-1".to_string(), positions })
}

fn breaker(change: i64) -> risk_engine::CircuitBreakerResponse {
    circuit_breaker(&CircuitBreakerRequest { instrument: "AAPL".to_string(), price_change_pct: change })
}

fn as_f64(d: Decimal) -> f64 {
    d.mantissa as f64 / 10f64.powi(d.scale as i32)
}

#[test]
fn pretrade_medium_order_is_approved_and_flagged_large() {
    let r = assess_pretrade(&order(units(600), units(1000)), "id".to_string());
    assert_eq!(r.check_id, "id");
    assert!(r.approved);
    assert_eq!(r.reasons, vec![Reason::LargeOrder]);
    assert_eq!(r.risk_score, Decimal::new(600_000_000_000_000_000, 18));
    assert_eq!(as_f64(r.risk_score), 0.6);
    assert_eq!(as_f64(r.margin_impact), 60_000.0);
    assert_eq!(as_f64(r.position_limit_used_pct), 60.0);
}

#[test]
fn pretrade_huge_order_is_blocked_with_both_reasons() {
    let r = assess_pretrade(&order(units(10_000), units(1000)), "id".to_string());
    assert!(!r.approved);
    assert_eq!(r.reasons, vec![Reason::PositionLimitExceeded, Reason::LargeOrder]);
    assert_eq!(r.risk_score, Decimal::new(1_000_000_000_000_000_000, 18));
    assert_eq!(as_f64(r.margin_impact), 1_000_000.0);
    assert_eq!(as_f64(r.position_limit_used_pct), 100.0);
}

#[test]
fn pretrade_small_order_has_no_reasons() {
    let r = assess_pretrade(&order(units(10), units(100)), "id".to_string());
    assert!(r.approved);
    assert!(r.reasons.is_empty());
    assert_eq!(as_f64(r.risk_score), 0.001);
}

#[test]
fn pretrade_limit_boundaries() {
    // a notional of exactly 800 000 scores 0.8 and is blocked
    let at_limit = assess_pretrade(&order(units(800), units(1000)), String::new());
    assert!(!at_limit.approved);
    assert_eq!(at_limit.reasons, vec![Reason::PositionLimitExceeded, Reason::LargeOrder]);
    // just below it is approved
    let below = assess_pretrade(&order(units(800) - 1, units(1000)), String::new());
    assert!(below.approved);
    // a notional of exactly 500 000 is not large
    let half = assess_pretrade(&order(units(500), units(1000)), String::new());
    assert!(half.approved);
    assert!(half.reasons.is_empty());
}

#[test]
fn pretrade_score_stays_in_unit_range() {
    for (q, p) in [(0, 0), (1, 1), (units(1), units(1)), (units(999), units(1000)), (i64::MAX, i64::MAX)] {
        let r = assess_pretrade(&order(q, p), String::new());
        assert!(r.risk_score.mantissa >= 0);
        assert!(r.risk_score.mantissa <= 1_000_000_000_000_000_000);
        assert_eq!(r.approved, r.risk_score.mantissa < 800_000_000_000_000_000);
    }
}

#[test]
fn pretrade_check_draws_a_hyphenated_identifier() {
    let a = pretrade_check(&order(units(600), units(1000)));
    let b = pretrade_check(&order(units(600), units(1000)));
    assert_eq!(a.check_id.len(), 36);
    for i in [8, 13, 18, 23] {
        assert_eq!(a.check_id.as_bytes()[i], b'-');
    }
    assert_ne!(a.check_id, b.check_id);
    assert!(a.approved);
    assert_eq!(a.reasons, vec![Reason::LargeOrder]);
}

#[test]
fn reason_texts() {
    assert_eq!(Reason::PositionLimitExceeded.text(), "Position limit exceeded");
    assert_eq!(Reason::LargeOrder.text(), "Large order flag");
}

#[test]
fn margin_without_positions_is_zero() {
    for positions in [None, Some(Vec::new())] {
        let r = margin_of(positions);
        assert_eq!(r.account, "ACC-1");
        assert_eq!(r.initial_margin.mantissa, 0);
        assert_eq!(r.maintenance_margin.mantissa, 0);
        assert_eq!(r.var_95.mantissa, 0);
        assert_eq!(r.var_99.mantissa, 0);
        assert_eq!(r.margin_utilization_pct.mantissa, 0);
        assert_eq!(r.available_margin, Decimal::new(CAPITAL, 13));
        assert_eq!(as_f64(r.available_margin), 1_000_000.0);
    }
}

#[test]
fn margin_of_one_position() {
    let r = margin_of(Some(vec![position(units(1000), units(100))]));
    assert_eq!(as_f64(r.initial_margin), 10_000.0);
    assert_eq!(as_f64(r.maintenance_margin), 5_000.0);
    assert_eq!(as_f64(r.available_margin), 990_000.0);
    assert_eq!(as_f64(r.margin_utilization_pct), 1.0);
    assert_eq!(as_f64(r.var_95), 2_000.0);
    assert_eq!(as_f64(r.var_99), 3_500.0);
}

#[test]
fn margin_sums_positions_and_may_go_negative() {
    let r = margin_of(Some(vec![
        position(units(10_000), units(1000)),
        position(units(5_000), units(1000)),
        position(units(-1_000), units(1000)),
    ]));
    // total notional 14 000 000
    assert_eq!(as_f64(r.initial_margin), 1_400_000.0);
    assert_eq!(as_f64(r.available_margin), -400_000.0);
    assert_eq!(as_f64(r.margin_utilization_pct), 140.0);
    assert_eq!(as_f64(r.var_99), 490_000.0);
}

#[test]
fn margin_limits_are_checked() {
    assert!(request_within_limits(&MarginRequest { account: String::new(), positions: None }));
    let inside = MarginRequest {
        account: String::new(),
        positions: Some(vec![position(MAX_MAGNITUDE, -MAX_MAGNITUDE)]),
    };
    assert!(request_within_limits(&inside));
    let outside = MarginRequest {
        account: String::new(),
        positions: Some(vec![position(1, 1), position(1, MAX_MAGNITUDE + 1)]),
    };
    assert!(!request_within_limits(&outside));
}

#[test]
fn circuit_breaker_ladder() {
    let l3 = breaker(units(-20));
    assert!(l3.triggered);
    assert_eq!(l3.level, Level::L3);
    assert_eq!(l3.level.name(), "L3");
    assert_eq!(l3.halt_duration_secs, 3600);
    assert_eq!(l3.price_change_pct, units(-20));
    assert_eq!(l3.instrument, "AAPL");

    let calm = breaker(units(5));
    assert!(!calm.triggered);
    assert_eq!(calm.level.name(), "none");
    assert_eq!(calm.halt_duration_secs, 0);

    let l2 = breaker(units(13));
    assert_eq!((l2.level, l2.halt_duration_secs, l2.level.name()), (Level::L2, 900, "L2"));
    let l1 = breaker(units(-7));
    assert_eq!((l1.level, l1.halt_duration_secs, l1.level.name()), (Level::L1, 300, "L1"));
    assert!(!breaker(units(7) - 1).triggered);
    assert_eq!(breaker(i64::MIN).level, Level::L3);
}

#[test]
fn stress_test_defaults() {
    let r = stress_test(&StressTestRequest { scenario: None, shock_pct: None });
    assert_eq!(r.scenario, "market-crash");
    assert_eq!(as_f64(r.portfolio_impact), -200_000.0);
    assert_eq!(as_f64(r.worst_case_loss), -300_000.0);
    assert_eq!(r.instruments_affected, 25);
    assert_eq!(r.breaches, vec![Breach::VarLimit, Breach::MarginCall]);
    assert_eq!(r.breaches[0].text(), "VaR limit breach");
    assert_eq!(r.breaches[1].text(), "Margin call triggered");
}

#[test]
fn stress_test_breach_threshold() {
    let mild = stress_test(&StressTestRequest { scenario: Some("rates-up".to_string()), shock_pct: Some(units(-15)) });
    assert_eq!(mild.scenario, "rates-up");
    assert!(mild.breaches.is_empty());
    assert_eq!(as_f64(mild.portfolio_impact), -150_000.0);
    assert_eq!(as_f64(mild.worst_case_loss), -225_000.0);
    let rally = stress_test(&StressTestRequest { scenario: None, shock_pct: Some(units(15) + 1) });
    assert_eq!(rally.breaches.len(), 2);
    assert_eq!(rally.instruments_affected, 25);
}

#[test]
fn stats_start_at_zero_with_zero_block_rate() {
    let s = Stats::new();
    let r = s.report();
    assert_eq!((r.total_checks, r.total_margin_calcs, r.total_alerts, r.trades_blocked), (0, 0, 0, 0));
    assert_eq!(r.block_rate_pct, Fraction { numerator: 0, denominator: 1 });
    assert_eq!(s.total_ops(), 0);
}

#[test]
fn stats_count_each_handler() {
    let mut s = Stats::new();
    for e in [
        StatsEvent::PreTrade { approved: true },
        StatsEvent::PreTrade { approved: false },
        StatsEvent::PreTrade { approved: true },
        StatsEvent::MarginCalc,
        StatsEvent::CircuitBreaker { triggered: true },
        StatsEvent::CircuitBreaker { triggered: false },
    ] {
        assert!(s.can_record(e));
        s.record(e);
    }
    let r = s.report();
    assert_eq!(r.total_checks, 3);
    assert_eq!(r.trades_blocked, 1);
    assert_eq!(r.total_alerts, 2);
    assert_eq!(r.total_margin_calcs, 1);
    assert_eq!(r.block_rate_pct, Fraction { numerator: 100, denominator: 3 });
    assert_eq!(s.total_ops(), 4);
}

#[test]
fn stats_count_every_check() {
    let mut s = Stats::new();
    let n: u64 = 1000;
    for i in 0..n {
        let before = s.report();
        s.record(StatsEvent::PreTrade { approved: i % 4 != 0 });
        let after = s.report();
        assert!(after.total_checks > before.total_checks);
        assert!(after.trades_blocked >= before.trades_blocked);
    }
    let r = s.report();
    assert_eq!(r.total_checks, n);
    assert_eq!(r.trades_blocked, 250);
    assert_eq!(r.block_rate_pct, Fraction { numerator: 25_000, denominator: 1000 });
}
