use vstd::prelude::*;

verus! {

/// One decision of the signal engine.
#[derive(Clone, Copy, Debug, PartialEq, Eq, Structural)]
pub struct SignalRecord {
    pub conn_id: usize,
    pub timestamp_ms: u64,
    /// Raw momentum, in millionths.
    pub momentum: i64,
    /// Raw price forecast, in millionths.
    pub forecast: i64,
    /// The combined signal in millionths is `combined / combined_denominator`.
    pub combined: i128,
    pub combined_denominator: u64,
    pub trade_volume: i64,
    pub position: i32,
}

/// The outcome of one market tick on a connection that has traded before.
#[derive(Clone, Copy, Debug, PartialEq, Eq, Structural)]
pub struct PerformanceRecord {
    pub conn_id: usize,
    pub timestamp_ms: u64,
    pub momentum: i64,
    pub forecast: i64,
    pub position: i32,
    pub trade_volume: i64,
    /// Profit since the connection's previous tick, in millionths.
    pub pnl_change: i128,
    pub price: i64,
    pub total_pnl: i64,
}

/// The largest size of a profit change: the difference of two `i64` amounts.
pub open spec fn pnl_change_bounded(r: PerformanceRecord) -> bool {
    -0x1_0000_0000_0000_0000 <= r.pnl_change <= 0x1_0000_0000_0000_0000
}

/// What each connection keeps about itself across reconnects.
#[derive(Clone, Copy, Debug, PartialEq, Eq, Structural)]
pub struct ConnectionPerformance {
    /// The profit and loss seen at the connection's previous tick, in millionths.
    pub last_pnl: i64,
    pub trades_made: u64,
    /// Carried along; nothing counts successes yet.
    pub successful_trades: u64,
}

impl ConnectionPerformance {
    pub fn new() -> (r: ConnectionPerformance)
        ensures
            r.last_pnl == 0,
            r.trades_made == 0,
            r.successful_trades == 0,
    {
        ConnectionPerformance { last_pnl: 0, trades_made: 0, successful_trades: 0 }
    }
}

} // verus!
