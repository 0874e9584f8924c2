use trading_agent::config::{Config, MICROS};
use trading_agent::fifo::BoundedFifo;
use trading_agent::records::PerformanceRecord;
use trading_agent::strategy::{optimize_strategy, StrategyParams, StrategyState};

fn record(pnl_change: i128, trade_volume: i64, momentum: i64, forecast: i64) -> PerformanceRecord {
    PerformanceRecord {
        conn_id: 0,
        timestamp_ms: 0,
        momentum,
        forecast,
        position: 0,
        trade_volume,
        pnl_change,
        price: 0,
        total_pnl: 0,
    }
}

fn history_of(records: &[PerformanceRecord]) -> BoundedFifo<PerformanceRecord> {
    let mut h = BoundedFifo::new(20);
    for r in records {
        h.push(*r);
    }
    h
}

fn config() -> Config {
    Config::standard(String::from("me"))
}

#[test]
fn optimizer_waits_for_interval() {
    let cfg = config();
    let h = history_of(&[record(6 * MICROS as i128, 1, 5, 1); 5]);
    let mut st = StrategyState::new(1_000);
    let before = st;
    assert!(!optimize_strategy(&mut st, &h, 1_000 + 29_999, &cfg));
    assert_eq!(st, before);
    assert!(optimize_strategy(&mut st, &h, 1_000 + 30_000, &cfg));
    assert_eq!(st.last_optimization_ms, 31_000);
    let after = st;
    assert!(!optimize_strategy(&mut st, &h, 31_000 + 10_000, &cfg));
    assert_eq!(st, after);
}

#[test]
fn optimizer_needs_five_records() {
    let cfg = config();
    let h = history_of(&[record(6 * MICROS as i128, 1, 5, 1); 4]);
    let mut st = StrategyState::new(0);
    let before = st;
    assert!(!optimize_strategy(&mut st, &h, 100_000, &cfg));
    assert_eq!(st, before);
}

#[test]
fn profit_renormalizes_weights() {
    let cfg = config();
    // mean change 6.0; three momentum-led and two forecast-led profitable trades
    let h = history_of(&[
        record(6 * MICROS as i128, 2, 9, 1),
        record(6 * MICROS as i128, 2, 9, 1),
        record(6 * MICROS as i128, -1, -9, 1),
        record(6 * MICROS as i128, 1, 1, 9),
        record(6 * MICROS as i128, 1, 1, -9),
    ]);
    let mut st = StrategyState::new(0);
    assert!(optimize_strategy(&mut st, &h, 30_000, &cfg));
    let p = st.params;
    // momentum: (3 * 1.0 + 2 * 0.5) / 5 = 0.8; forecast: (3 * 0.5 + 2 * 1.0) / 5 = 0.7
    // momentum weight 0.8 / 1.5 = 8/15, forecast weight 7/15
    assert_eq!(p.momentum_weight * 15, 8 * p.weight_denominator);
    assert_eq!(p.forecast_weight * 15, 7 * p.weight_denominator);
    assert_eq!(p.momentum_weight + p.forecast_weight, p.weight_denominator);
    assert_eq!(p.aggressive_factor, 16);
}

#[test]
fn profit_without_profitable_trades_keeps_weights() {
    let cfg = config();
    let h = history_of(&[record(6 * MICROS as i128, 0, 9, 1); 5]);
    let mut st = StrategyState::new(0);
    assert!(optimize_strategy(&mut st, &h, 30_000, &cfg));
    assert_eq!(st.params, StrategyParams::initial());
    assert_eq!(st.last_optimization_ms, 30_000);
}

#[test]
fn aggressive_factor_is_capped() {
    let cfg = config();
    let h = history_of(&[record(6 * MICROS as i128, 1, 9, 1); 5]);
    let mut st = StrategyState::new(0);
    st.params.aggressive_factor = 20;
    assert!(optimize_strategy(&mut st, &h, 30_000, &cfg));
    assert_eq!(st.params.aggressive_factor, 20);
    // all momentum-led: weights 2/3 and 1/3
    assert_eq!(st.params.momentum_weight * 3, 2 * st.params.weight_denominator);
}

#[test]
fn loss_resets_weights() {
    let cfg = config();
    let h = history_of(&[record(-6 * MICROS as i128, 1, 9, 1); 5]);
    let mut st = StrategyState::new(0);
    assert!(optimize_strategy(&mut st, &h, 30_000, &cfg));
    let p = st.params;
    assert_eq!(p.momentum_weight * 2, p.weight_denominator);
    assert_eq!(p.forecast_weight * 2, p.weight_denominator);
    assert_eq!(p.aggressive_factor, 13);
    st.params.aggressive_factor = 11;
    assert!(optimize_strategy(&mut st, &h, 60_000, &cfg));
    assert_eq!(st.params.aggressive_factor, 10);
}

#[test]
fn moderate_mean_changes_nothing() {
    let cfg = config();
    // mean change exactly 5.0 is not above the threshold
    let h = history_of(&[record(5 * MICROS as i128, 1, 9, 1); 5]);
    let mut st = StrategyState::new(0);
    assert!(optimize_strategy(&mut st, &h, 30_000, &cfg));
    assert_eq!(st.params, StrategyParams::initial());
}

#[test]
fn clock_running_backwards_does_not_optimize() {
    let cfg = config();
    let h = history_of(&[record(-6 * MICROS as i128, 1, 9, 1); 5]);
    let mut st = StrategyState::new(100_000);
    assert!(!optimize_strategy(&mut st, &h, 50_000, &cfg));
    assert_eq!(st.params, StrategyParams::initial());
}

#[test]
fn standard_config_and_initial_parameters() {
    let cfg = config();
    assert_eq!(cfg.identity, "me");
    assert_eq!(cfg.history_capacity, 20);
    assert_eq!(cfg.optimization_interval_ms, 30_000);
    assert_eq!(cfg.min_records, 5);
    assert_eq!(cfg.gain_threshold, 5 * MICROS);
    assert_eq!(cfg.loss_threshold, -5 * MICROS);
    let p = StrategyParams::initial();
    // 0.6 and 0.4
    assert_eq!((p.momentum_weight, p.forecast_weight, p.weight_denominator), (3, 2, 5));
    assert_eq!(p.strong_momentum_threshold, 10 * MICROS);
    assert_eq!(p.medium_momentum_threshold, 5 * MICROS);
    assert_eq!(p.aggressive_factor, 15);
}
