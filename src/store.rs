use vstd::prelude::*;
use crate::config::{Config, MAX_HISTORY};
use crate::connections::ConnectionBook;
use crate::fifo::BoundedFifo;
use crate::records::{PerformanceRecord, SignalRecord};
use crate::strategy::{StrategyState, history_ok, initial_params};

verus! {

/// The process-wide state every connection shares. Each part is meant to sit
/// behind a lock of its own, so that unrelated work never waits on another.
pub struct Store {
    pub strategy: StrategyState,
    pub signals: BoundedFifo<SignalRecord>,
    pub performance: BoundedFifo<PerformanceRecord>,
    pub connections: ConnectionBook,
}

impl Store {
    pub open spec fn wf(&self, config: Config) -> bool {
        &&& self.strategy.params.wf()
        &&& self.signals.wf()
        &&& self.performance.wf()
        &&& self.signals.spec_capacity() == config.history_capacity
        &&& self.performance.spec_capacity() == config.history_capacity
        &&& self.performance.spec_capacity() <= MAX_HISTORY
        &&& history_ok(self.performance@)
    }

    /// Initial parameters, empty histories and no connections; the
    /// optimisation clock starts at `now_ms`.
    pub fn new(config: &Config, now_ms: u64) -> (r: Store)
        requires
            config.wf(),
        ensures
            r.wf(*config),
            r.strategy.params == initial_params(),
            r.strategy.last_optimization_ms == now_ms,
            r.signals@.len() == 0,
            r.performance@.len() == 0,
            r.connections@.is_empty(),
    {
        Store {
            strategy: StrategyState::new(now_ms),
            signals: BoundedFifo::new(config.history_capacity),
            performance: BoundedFifo::new(config.history_capacity),
            connections: ConnectionBook::new(),
        }
    }
}

} // verus!
