use vstd::prelude::*;

verus! {

/// Market quantities (prices, profit and loss, momentum, forecast, smoothed
/// signals) are carried as whole numbers of millionths.
pub const MICROS: i64 = 1_000_000;

/// The largest history a configuration may ask for; it keeps every sum over a
/// history far inside `i128`.
pub const MAX_HISTORY: usize = 1_000_000;

/// Fixed settings, built once at start-up and handed to every component.
pub struct Config {
    /// The identity this agent trades under; the server echoes it on handshake.
    pub identity: String,
    /// How many records each history keeps.
    pub history_capacity: usize,
    /// The least time between two optimisations, in milliseconds.
    pub optimization_interval_ms: u64,
    /// How many performance records an optimisation needs.
    pub min_records: usize,
    /// Mean profit per record (millionths) above which the weights are retuned.
    pub gain_threshold: i64,
    /// Mean profit per record (millionths) below which the weights are reset.
    pub loss_threshold: i64,
    /// The position limit assumed when a market tick leaves it out.
    pub default_position_limit: i32,
    /// The size of the trade placed on a puzzle.
    pub puzzle_volume: i32,
    /// The shortest and longest pause before reconnecting, in whole seconds.
    pub min_reconnect_delay_s: u64,
    pub max_reconnect_delay_s: u64,
}

impl Config {
    pub open spec fn wf(&self) -> bool {
        &&& 1 <= self.history_capacity <= MAX_HISTORY
        &&& self.min_records >= 1
        &&& self.loss_threshold <= self.gain_threshold
        &&& self.min_reconnect_delay_s <= self.max_reconnect_delay_s < u64::MAX
    }

    /// The agent's standard settings: histories of 20, an optimisation at most
    /// every 30 s over at least 5 records, thresholds of plus and minus 5, a
    /// default position limit of 3, puzzle trades of 3 and a 1 to 3 s pause.
    pub fn standard(identity: String) -> (r: Config)
        ensures
            r.wf(),
            r.identity@ == identity@,
            r.history_capacity == 20,
            r.optimization_interval_ms == 30_000,
            r.min_records == 5,
            r.gain_threshold == 5 * MICROS,
            r.loss_threshold == -5 * MICROS,
            r.default_position_limit == 3,
            r.puzzle_volume == 3,
            r.min_reconnect_delay_s == 1,
            r.max_reconnect_delay_s == 3,
    {
        Config {
            identity,
            history_capacity: 20,
            optimization_interval_ms: 30_000,
            min_records: 5,
            gain_threshold: 5 * MICROS,
            loss_threshold: -5 * MICROS,
            default_position_limit: 3,
            puzzle_volume: 3,
            min_reconnect_delay_s: 1,
            max_reconnect_delay_s: 3,
        }
    }
}

} // verus!
