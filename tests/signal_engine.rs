use trading_agent::config::{Config, MICROS};
use trading_agent::fifo::BoundedFifo;
use trading_agent::records::SignalRecord;
use trading_agent::session::Outbound;
use trading_agent::signal::{
    combined_signal, determine_trade_volume, trade_order, trade_volume, MarketTick, SmoothedSignals,
};
use trading_agent::strategy::StrategyParams;

fn micros(x: f64) -> i64 {
    (x * MICROS as f64).round() as i64
}

fn smoothed(momentum: f64, forecast: f64) -> SmoothedSignals {
    SmoothedSignals {
        momentum_signal: micros((momentum / 10.0).tanh()),
        forecast_signal: micros((forecast * 2.0).tanh()),
    }
}

fn tick(forecast: f64, momentum: f64, position: i32, position_limit: i32) -> MarketTick {
    MarketTick {
        forecast: micros(forecast),
        momentum: micros(momentum),
        position,
        position_limit,
        price: 0,
        pnl: 0,
    }
}

#[test]
fn positive_signal_buys_up_to_limit() {
    let params = StrategyParams::initial();
    let s = smoothed(12.0, 0.3);
    assert_eq!(s.momentum_signal, 833655);
    assert_eq!(s.forecast_signal, 537050);
    let c = combined_signal(&params, s);
    // 0.6 * 0.833655 + 0.4 * 0.537050 = 0.715013, scaled by the denominator 5
    assert_eq!(c, 715013 * 5);
    assert_eq!(trade_volume(c, 1, 3), 2);
}

#[test]
fn negative_signal_sells_through_zero() {
    let params = StrategyParams::initial();
    let s = smoothed(-12.0, 0.3);
    let c = combined_signal(&params, s);
    // 0.6 * -0.833655 + 0.4 * 0.537050 = -0.285373
    assert_eq!(c, -285373 * 5);
    assert_eq!(trade_volume(c, 1, 3), -4);
}

#[test]
fn zero_signal_holds() {
    assert_eq!(trade_volume(0, 1, 3), 0);
    assert_eq!(trade_order(0), None);
    assert_eq!(trade_order(-4), Some(Outbound::Trade { volume: -4 }));
}

#[test]
fn volume_may_exceed_limit_from_opposite_side() {
    assert_eq!(trade_volume(1, -2, 3), 5);
    assert_eq!(trade_volume(-1, 2, 3), -5);
}

#[test]
fn identical_inputs_give_identical_volumes() {
    let params = StrategyParams::initial();
    for &(m, f, pos, lim) in &[(12.0, 0.3, 1, 3), (-12.0, 0.3, 1, 3), (0.0, 0.0, 0, 3), (-3.0, -1.0, -2, 3)] {
        let a = trade_volume(combined_signal(&params, smoothed(m, f)), pos, lim);
        let b = trade_volume(combined_signal(&params, smoothed(m, f)), pos, lim);
        assert_eq!(a, b);
        let c = combined_signal(&params, smoothed(m, f));
        assert_eq!(a.signum(), c.signum() as i64);
    }
}

#[test]
fn decision_is_recorded_in_signal_history() {
    let params = StrategyParams::initial();
    let mut history: BoundedFifo<SignalRecord> = BoundedFifo::new(20);
    let t = tick(0.3, 12.0, 1, 3);
    let v = determine_trade_volume(&params, &mut history, 4, 1000, &t, smoothed(12.0, 0.3));
    assert_eq!(v, 2);
    assert_eq!(history.len(), 1);
    let r = *history.get(0);
    assert_eq!(r.conn_id, 4);
    assert_eq!(r.timestamp_ms, 1000);
    assert_eq!(r.trade_volume, 2);
    assert_eq!(r.position, 1);
    assert_eq!(r.momentum, 12 * MICROS);
    assert_eq!(r.combined, 715013 * 5);
    assert_eq!(r.combined_denominator, 5);
}

#[test]
fn missing_fields_take_defaults() {
    let cfg = Config::standard(String::from("me"));
    let t = MarketTick::from_fields(None, None, None, None, None, None, &cfg);
    assert_eq!(t, MarketTick { forecast: 0, momentum: 0, position: 0, position_limit: 3, price: 0, pnl: 0 });
    let t = MarketTick::from_fields(Some(1), Some(2), Some(-1), Some(5), Some(7), Some(9), &cfg);
    assert_eq!(t, MarketTick { forecast: 1, momentum: 2, position: -1, position_limit: 5, price: 7, pnl: 9 });
}
