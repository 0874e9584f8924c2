use vstd::prelude::*;
use crate::config::{Config, MICROS, MAX_HISTORY};
use crate::fifo::BoundedFifo;
use crate::records::{PerformanceRecord, pnl_change_bounded};

verus! {

/// The aggressive factor is counted in tenths; it stays within 1.0 and 2.0
/// when tuned.
pub const AGGRESSIVE_CEILING: u64 = 20;
pub const AGGRESSIVE_FLOOR: u64 = 10;
pub const AGGRESSIVE_STEP_UP: u64 = 1;
pub const AGGRESSIVE_STEP_DOWN: u64 = 2;

/// The largest weight denominator: three times the largest history.
pub const MAX_WEIGHT_DENOMINATOR: u64 = 3_000_000;

/// The weights are the exact fractions `momentum_weight / weight_denominator`
/// and `forecast_weight / weight_denominator`.
#[derive(Clone, Copy, Debug, PartialEq, Eq, Structural)]
pub struct StrategyParams {
    pub momentum_weight: u64,
    pub forecast_weight: u64,
    pub weight_denominator: u64,
    /// Momentum levels in millionths; carried, read by no decision.
    pub strong_momentum_threshold: i64,
    pub medium_momentum_threshold: i64,
    /// In tenths; tuned, read by no decision.
    pub aggressive_factor: u64,
}

/// Momentum weight 0.6, forecast weight 0.4, thresholds 10 and 5,
/// aggressive factor 1.5.
pub open spec fn initial_params() -> StrategyParams {
    StrategyParams {
        momentum_weight: 3,
        forecast_weight: 2,
        weight_denominator: 5,
        strong_momentum_threshold: (10 * MICROS) as i64,
        medium_momentum_threshold: (5 * MICROS) as i64,
        aggressive_factor: 15,
    }
}

impl StrategyParams {
    /// The two weights are non-negative fractions that add up to one.
    pub open spec fn wf(&self) -> bool {
        &&& 1 <= self.weight_denominator <= MAX_WEIGHT_DENOMINATOR
        &&& self.momentum_weight + self.forecast_weight == self.weight_denominator
    }

    pub fn initial() -> (r: StrategyParams)
        ensures
            r == initial_params(),
            r.wf(),
    {
        StrategyParams {
            momentum_weight: 3,
            forecast_weight: 2,
            weight_denominator: 5,
            strong_momentum_threshold: 10 * MICROS,
            medium_momentum_threshold: 5 * MICROS,
            aggressive_factor: 15,
        }
    }
}

/// The strategy parameters and the optimisation clock, which change together.
#[derive(Clone, Copy, Debug, PartialEq, Eq, Structural)]
pub struct StrategyState {
    pub params: StrategyParams,
    pub last_optimization_ms: u64,
}

impl StrategyState {
    pub fn new(now_ms: u64) -> (r: StrategyState)
        ensures
            r.params == initial_params(),
            r.params.wf(),
            r.last_optimization_ms == now_ms,
    {
        StrategyState { params: StrategyParams::initial(), last_optimization_ms: now_ms }
    }
}

pub open spec fn pnl_sum(s: Seq<PerformanceRecord>) -> int
    decreases s.len(),
{
    if s.len() == 0 {
        0
    } else {
        pnl_sum(s.drop_last()) + s.last().pnl_change
    }
}

/// A record of a trade that made money.
pub open spec fn is_profitable(r: PerformanceRecord) -> bool {
    r.pnl_change > 0 && r.trade_volume != 0
}

/// Momentum outweighed the forecast in size.
pub open spec fn momentum_led(r: PerformanceRecord) -> bool {
    (if r.momentum < 0 { -r.momentum } else { r.momentum as int }) > (if r.forecast < 0 {
        -r.forecast
    } else {
        r.forecast as int
    })
}

pub open spec fn count_momentum_led(s: Seq<PerformanceRecord>) -> nat
    decreases s.len(),
{
    if s.len() == 0 {
        0
    } else {
        count_momentum_led(s.drop_last()) + if is_profitable(s.last()) && momentum_led(s.last()) {
            1nat
        } else {
            0nat
        }
    }
}

pub open spec fn count_forecast_led(s: Seq<PerformanceRecord>) -> nat
    decreases s.len(),
{
    if s.len() == 0 {
        0
    } else {
        count_forecast_led(s.drop_last()) + if is_profitable(s.last()) && !momentum_led(s.last()) {
            1nat
        } else {
            0nat
        }
    }
}

/// The optimiser runs when the interval has passed since the last run and
/// the history holds enough records.
pub open spec fn optimization_due(st: StrategyState, len: nat, now_ms: u64, c: Config) -> bool {
    &&& now_ms >= st.last_optimization_ms + c.optimization_interval_ms
    &&& len >= c.min_records
}

/// The parameters after a due run over `s`. When the mean profit is above
/// the gain threshold, each profitable record scores its leading signal 1 and
/// the other 0.5; each weight becomes its mean score over the sum of the two
/// means, that is `(2m + f) / 3(m + f)` for momentum with `m` momentum-led
/// and `f` forecast-led records, and the aggressive factor rises by 0.1 up
/// to 2.0. When the mean is below the loss threshold, both weights become
/// one half and the aggressive factor falls by 0.2 down to 1.0.
pub open spec fn tuned_params(p: StrategyParams, s: Seq<PerformanceRecord>, c: Config) -> StrategyParams {
    let m = count_momentum_led(s);
    let f = count_forecast_led(s);
    if pnl_sum(s) > c.gain_threshold * s.len() {
        if m + f > 0 {
            StrategyParams {
                momentum_weight: (2 * m + f) as u64,
                forecast_weight: (m + 2 * f) as u64,
                weight_denominator: (3 * (m + f)) as u64,
                aggressive_factor: if p.aggressive_factor + AGGRESSIVE_STEP_UP
                    <= AGGRESSIVE_CEILING {
                    (p.aggressive_factor + AGGRESSIVE_STEP_UP) as u64
                } else {
                    AGGRESSIVE_CEILING
                },
                ..p
            }
        } else {
            p
        }
    } else if pnl_sum(s) < c.loss_threshold * s.len() {
        StrategyParams {
            momentum_weight: 1,
            forecast_weight: 1,
            weight_denominator: 2,
            aggressive_factor: if p.aggressive_factor >= AGGRESSIVE_FLOOR + AGGRESSIVE_STEP_DOWN {
                (p.aggressive_factor - AGGRESSIVE_STEP_DOWN) as u64
            } else {
                AGGRESSIVE_FLOOR
            },
            ..p
        }
    } else {
        p
    }
}

/// The state after one invocation of the optimiser at `now_ms`.
pub open spec fn optimized(st: StrategyState, s: Seq<PerformanceRecord>, now_ms: u64, c: Config) -> StrategyState {
    if optimization_due(st, s.len(), now_ms, c) {
        StrategyState { params: tuned_params(st.params, s, c), last_optimization_ms: now_ms }
    } else {
        st
    }
}

pub open spec fn history_ok(s: Seq<PerformanceRecord>) -> bool {
    forall|i: int| 0 <= i < s.len() ==> pnl_change_bounded(#[trigger] s[i])
}

proof fn lemma_counts_bounded(s: Seq<PerformanceRecord>)
    ensures
        count_momentum_led(s) + count_forecast_led(s) <= s.len(),
    decreases s.len(),
{
    if s.len() > 0 {
        lemma_counts_bounded(s.drop_last());
    }
}

fn abs_i64(x: i64) -> (r: u64)
    ensures
        r == (if x < 0 { -x } else { x as int }),
{
    if x < 0 {
        (-(x as i128)) as u64
    } else {
        x as u64
    }
}

/// Retunes the weights from the performance history when a run is due, and
/// then stamps the clock; otherwise changes nothing. Returns whether it ran.
pub fn optimize_strategy(
    state: &mut StrategyState,
    history: &BoundedFifo<PerformanceRecord>,
    now_ms: u64,
    config: &Config,
) -> (ran: bool)
    requires
        old(state).params.wf(),
        history.wf(),
        history.spec_capacity() <= MAX_HISTORY,
        history_ok(history@),
    ensures
        ran == optimization_due(*old(state), history@.len(), now_ms, *config),
        *final(state) == optimized(*old(state), history@, now_ms, *config),
        final(state).params.wf(),
{
    let n = history.len();
    if now_ms < state.last_optimization_ms || now_ms - state.last_optimization_ms
        < config.optimization_interval_ms || n < config.min_records {
        return false;
    }
    state.last_optimization_ms = now_ms;
    let ghost s = history@;
    let mut sum: i128 = 0;
    let mut m: u64 = 0;
    let mut f: u64 = 0;
    let mut i: usize = 0;
    while i < n
        invariant
            n == s.len(),
            s == history@,
            n <= MAX_HISTORY,
            history_ok(s),
            i <= n,
            sum == pnl_sum(s.take(i as int)),
            m == count_momentum_led(s.take(i as int)),
            f == count_forecast_led(s.take(i as int)),
            -(i as int) * 0x1_0000_0000_0000_0000 <= sum <= (i as int) * 0x1_0000_0000_0000_0000,
            m + f <= i,
        decreases n - i,
    {
        let r = history.get(i);
        assert(s.take(i + 1).drop_last() =~= s.take(i as int));
        assert(pnl_change_bounded(s[i as int]));
        sum = sum + r.pnl_change;
        if r.pnl_change > 0 && r.trade_volume != 0 {
            if abs_i64(r.momentum) > abs_i64(r.forecast) {
                m = m + 1;
            } else {
                f = f + 1;
            }
        }
        i = i + 1;
    }
    assert(s.take(n as int) =~= s);
    let count = n as i128;
    proof {
        let g = config.gain_threshold as int;
        let l = config.loss_threshold as int;
        assert(-0x8000_0000_0000_0000 * 1_000_000 <= g * count <= 0x8000_0000_0000_0000 * 1_000_000)
            by (nonlinear_arith)
            requires
                -0x8000_0000_0000_0000 <= g < 0x8000_0000_0000_0000,
                0 <= count <= 1_000_000,
        ;
        assert(-0x8000_0000_0000_0000 * 1_000_000 <= l * count <= 0x8000_0000_0000_0000 * 1_000_000)
            by (nonlinear_arith)
            requires
                -0x8000_0000_0000_0000 <= l < 0x8000_0000_0000_0000,
                0 <= count <= 1_000_000,
        ;
    }
    if sum > (config.gain_threshold as i128) * count {
        if m + f > 0 {
            state.params.momentum_weight = 2 * m + f;
            state.params.forecast_weight = m + 2 * f;
            state.params.weight_denominator = 3 * (m + f);
            if state.params.aggressive_factor <= AGGRESSIVE_CEILING - AGGRESSIVE_STEP_UP {
                state.params.aggressive_factor = state.params.aggressive_factor + AGGRESSIVE_STEP_UP;
            } else {
                state.params.aggressive_factor = AGGRESSIVE_CEILING;
            }
        }
    } else if sum < (config.loss_threshold as i128) * count {
        state.params.momentum_weight = 1;
        state.params.forecast_weight = 1;
        state.params.weight_denominator = 2;
        if state.params.aggressive_factor >= AGGRESSIVE_FLOOR + AGGRESSIVE_STEP_DOWN {
            state.params.aggressive_factor = state.params.aggressive_factor - AGGRESSIVE_STEP_DOWN;
        } else {
            state.params.aggressive_factor = AGGRESSIVE_FLOOR;
        }
    }
    true
}


/// An invocation less than the interval after the last run, or with fewer
/// records than a run needs, changes neither the parameters nor the clock.
pub proof fn lemma_optimizer_idle(st: StrategyState, s: Seq<PerformanceRecord>, now_ms: u64, c: Config)
    requires
        now_ms < st.last_optimization_ms + c.optimization_interval_ms || s.len() < c.min_records,
    ensures
        optimized(st, s, now_ms, c) == st,
{
}

/// After a run at `t1`, any invocation at `t2` within the interval of it
/// leaves the state as that run left it.
pub proof fn lemma_optimizer_rate_limited(
    st: StrategyState,
    s1: Seq<PerformanceRecord>,
    s2: Seq<PerformanceRecord>,
    t1: u64,
    t2: u64,
    c: Config,
)
    requires
        optimization_due(st, s1.len(), t1, c),
        t2 < t1 + c.optimization_interval_ms,
    ensures
        optimized(st, s1, t1, c).last_optimization_ms == t1,
        optimized(optimized(st, s1, t1, c), s2, t2, c) == optimized(st, s1, t1, c),
{
}

/// A run over a history whose mean profit is above the gain threshold and
/// which holds a profitable trade leaves two non-negative weights that add up
/// to exactly one.
pub proof fn lemma_profit_renormalizes(p: StrategyParams, s: Seq<PerformanceRecord>, c: Config)
    requires
        p.wf(),
        c.wf(),
        s.len() <= c.history_capacity,
        pnl_sum(s) > c.gain_threshold * s.len(),
        count_momentum_led(s) + count_forecast_led(s) > 0,
    ensures
        tuned_params(p, s, c).wf(),
        tuned_params(p, s, c).weight_denominator > 0,
        tuned_params(p, s, c).momentum_weight >= 0,
        tuned_params(p, s, c).forecast_weight >= 0,
        tuned_params(p, s, c).momentum_weight + tuned_params(p, s, c).forecast_weight
            == tuned_params(p, s, c).weight_denominator,
{
    lemma_counts_bounded(s);
}

/// A run over a history whose mean profit is below the loss threshold sets
/// both weights to one half and lowers the aggressive factor by 0.2, not
/// below 1.0.
pub proof fn lemma_loss_resets(p: StrategyParams, s: Seq<PerformanceRecord>, c: Config)
    requires
        c.wf(),
        pnl_sum(s) < c.loss_threshold * s.len(),
    ensures
        2 * tuned_params(p, s, c).momentum_weight == tuned_params(p, s, c).weight_denominator,
        2 * tuned_params(p, s, c).forecast_weight == tuned_params(p, s, c).weight_denominator,
        tuned_params(p, s, c).aggressive_factor == (if p.aggressive_factor - AGGRESSIVE_STEP_DOWN
            >= AGGRESSIVE_FLOOR {
            p.aggressive_factor - AGGRESSIVE_STEP_DOWN
        } else {
            AGGRESSIVE_FLOOR as int
        }),
{
    assert(c.loss_threshold * s.len() <= c.gain_threshold * s.len()) by (nonlinear_arith)
        requires
            c.loss_threshold <= c.gain_threshold,
    ;
}

} // verus!
