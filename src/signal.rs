use vstd::prelude::*;
use crate::fifo::{BoundedFifo, pushed};
use crate::records::SignalRecord;
use crate::config::Config;
use crate::session::Outbound;
use crate::strategy::StrategyParams;

verus! {

/// One market tick, with the feed's defaults already filled in. Amounts are
/// in millionths.
#[derive(Clone, Copy, Debug, PartialEq, Eq, Structural)]
pub struct MarketTick {
    pub forecast: i64,
    pub momentum: i64,
    pub position: i32,
    pub position_limit: i32,
    pub price: i64,
    pub pnl: i64,
}

pub open spec fn or_default(v: Option<i64>, d: i64) -> i64 {
    match v {
        Some(x) => x,
        None => d,
    }
}

impl MarketTick {
    /// Builds a tick from the fields the feed sent: a missing or non-numeric
    /// field counts as zero, but a missing position limit as the configured
    /// default. Positions keep the low 32 bits of what was sent.
    pub fn from_fields(
        forecast: Option<i64>,
        momentum: Option<i64>,
        position: Option<i64>,
        position_limit: Option<i64>,
        price: Option<i64>,
        pnl: Option<i64>,
        config: &Config,
    ) -> (r: MarketTick)
        ensures
            r.forecast == or_default(forecast, 0),
            r.momentum == or_default(momentum, 0),
            r.position == or_default(position, 0) as i32,
            r.position_limit == (match position_limit {
                Some(x) => x as i32,
                None => config.default_position_limit,
            }),
            r.price == or_default(price, 0),
            r.pnl == or_default(pnl, 0),
    {
        let position = match position {
            Some(x) => #[verifier::truncate] (x as i32),
            None => 0,
        };
        let position_limit = match position_limit {
            Some(x) => #[verifier::truncate] (x as i32),
            None => config.default_position_limit,
        };
        MarketTick {
            forecast: match forecast {
                Some(x) => x,
                None => 0,
            },
            momentum: match momentum {
                Some(x) => x,
                None => 0,
            },
            position,
            position_limit,
            price: match price {
                Some(x) => x,
                None => 0,
            },
            pnl: match pnl {
                Some(x) => x,
                None => 0,
            },
        }
    }
}

/// The trade a tick calls for: none for a zero volume.
pub fn trade_order(volume: i64) -> (r: Option<Outbound>)
    ensures
        r == (if volume != 0 {
            Some(Outbound::Trade { volume })
        } else {
            None::<Outbound>
        }),
{
    if volume != 0 {
        Some(Outbound::Trade { volume })
    } else {
        None
    }
}

/// The smoothed signals of one tick, in millionths: `tanh(momentum / 10)`
/// and `tanh(2 * forecast)`, each within one whole unit of zero.
#[derive(Clone, Copy, Debug, PartialEq, Eq, Structural)]
pub struct SmoothedSignals {
    pub momentum_signal: i64,
    pub forecast_signal: i64,
}

/// The combined signal, scaled by the weight denominator (which is positive,
/// so the sign is that of the weighted sum).
pub open spec fn combined_spec(p: StrategyParams, momentum_signal: int, forecast_signal: int) -> int {
    p.momentum_weight * momentum_signal + p.forecast_weight * forecast_signal
}

/// A positive signal buys up to the limit; a negative one sells through zero
/// to the opposite limit; a zero signal does nothing.
pub open spec fn volume_for(combined: int, position: int, position_limit: int) -> int {
    if combined > 0 {
        position_limit - position
    } else if combined < 0 {
        -(position + position_limit)
    } else {
        0
    }
}

pub open spec fn sign(x: int) -> int {
    if x > 0 {
        1
    } else if x < 0 {
        -1
    } else {
        0
    }
}

pub fn combined_signal(params: &StrategyParams, signals: SmoothedSignals) -> (r: i128)
    requires
        params.wf(),
    ensures
        r == combined_spec(*params, signals.momentum_signal as int, signals.forecast_signal as int),
{
    let mw = params.momentum_weight as i128;
    let fw = params.forecast_weight as i128;
    let ms = signals.momentum_signal as i128;
    let fs = signals.forecast_signal as i128;
    proof {
        assert(-0x8000_0000_0000_0000 * 0x40_0000 <= mw * ms <= 0x8000_0000_0000_0000 * 0x40_0000)
            by (nonlinear_arith)
            requires
                0 <= mw <= 0x40_0000,
                -0x8000_0000_0000_0000 <= ms < 0x8000_0000_0000_0000,
        ;
        assert(-0x8000_0000_0000_0000 * 0x40_0000 <= fw * fs <= 0x8000_0000_0000_0000 * 0x40_0000)
            by (nonlinear_arith)
            requires
                0 <= fw <= 0x40_0000,
                -0x8000_0000_0000_0000 <= fs < 0x8000_0000_0000_0000,
        ;
    }
    mw * ms + fw * fs
}

pub fn trade_volume(combined: i128, position: i32, position_limit: i32) -> (r: i64)
    ensures
        r == volume_for(combined as int, position as int, position_limit as int),
{
    if combined > 0 {
        position_limit as i64 - position as i64
    } else if combined < 0 {
        -(position as i64 + position_limit as i64)
    } else {
        0
    }
}

/// Turns a tick into a trade volume under the current weights, and appends
/// the decision to the signal history.
pub fn determine_trade_volume(
    params: &StrategyParams,
    history: &mut BoundedFifo<SignalRecord>,
    conn_id: usize,
    now_ms: u64,
    tick: &MarketTick,
    signals: SmoothedSignals,
) -> (r: i64)
    requires
        params.wf(),
        old(history).wf(),
    ensures
        r == volume_for(
            combined_spec(*params, signals.momentum_signal as int, signals.forecast_signal as int),
            tick.position as int,
            tick.position_limit as int,
        ),
        final(history).wf(),
        final(history).spec_capacity() == old(history).spec_capacity(),
        final(history)@ == pushed(
            old(history)@,
            old(history).spec_capacity(),
            SignalRecord {
                conn_id,
                timestamp_ms: now_ms,
                momentum: tick.momentum,
                forecast: tick.forecast,
                combined: combined_spec(
                    *params,
                    signals.momentum_signal as int,
                    signals.forecast_signal as int,
                ) as i128,
                combined_denominator: params.weight_denominator,
                trade_volume: r,
                position: tick.position,
            },
        ),
{
    let combined = combined_signal(params, signals);
    let volume = trade_volume(combined, tick.position, tick.position_limit);
    history.push(
        SignalRecord {
            conn_id,
            timestamp_ms: now_ms,
            momentum: tick.momentum,
            forecast: tick.forecast,
            combined,
            combined_denominator: params.weight_denominator,
            trade_volume: volume,
            position: tick.position,
        },
    );
    volume
}

/// The volume depends on the combined signal only through its sign; while
/// the position lies strictly inside the limits, the volume has the sign of
/// the signal, and no signal gives no trade.
pub proof fn lemma_volume_follows_signal(c1: int, c2: int, position: int, position_limit: int)
    requires
        sign(c1) == sign(c2),
    ensures
        volume_for(c1, position, position_limit) == volume_for(c2, position, position_limit),
        -position_limit < position < position_limit ==> sign(
            volume_for(c1, position, position_limit),
        ) == sign(c1),
{
}

} // verus!
