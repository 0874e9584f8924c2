use vstd::prelude::*;
use crate::fifo::{BoundedFifo, pushed};
use crate::records::{ConnectionPerformance, PerformanceRecord, pnl_change_bounded};
use crate::signal::MarketTick;
use crate::strategy::history_ok;

verus! {

broadcast use vstd::std_specs::hash::group_hash_axioms;

pub open spec fn fresh_performance() -> ConnectionPerformance {
    ConnectionPerformance { last_pnl: 0, trades_made: 0, successful_trades: 0 }
}

/// The per-connection records, created on first use and kept for the life of
/// the process.
pub struct ConnectionBook {
    entries: std::collections::HashMap<usize, ConnectionPerformance>,
}

impl View for ConnectionBook {
    type V = Map<usize, ConnectionPerformance>;

    closed spec fn view(&self) -> Map<usize, ConnectionPerformance> {
        self.entries@
    }
}

impl ConnectionBook {
    pub fn new() -> (r: ConnectionBook)
        ensures
            r@ == Map::<usize, ConnectionPerformance>::empty(),
    {
        ConnectionBook { entries: std::collections::HashMap::new() }
    }

    pub fn get(&self, conn_id: usize) -> (r: Option<ConnectionPerformance>)
        ensures
            r == (if self@.contains_key(conn_id) {
                Some(self@[conn_id])
            } else {
                None
            }),
    {
        match self.entries.get(&conn_id) {
            Some(p) => Some(*p),
            None => None,
        }
    }

    /// Creates the connection's record unless it exists already.
    pub fn register(&mut self, conn_id: usize)
        ensures
            final(self)@ == (if old(self)@.contains_key(conn_id) {
                old(self)@
            } else {
                old(self)@.insert(conn_id, fresh_performance())
            }),
    {
        if !self.entries.contains_key(&conn_id) {
            self.entries.insert(conn_id, ConnectionPerformance::new());
        }
    }

    /// Counts one executed trade (saturating at the largest count).
    pub fn record_trade(&mut self, conn_id: usize)
        ensures
            final(self)@ == (if old(self)@.contains_key(conn_id) {
                old(self)@.insert(
                    conn_id,
                    ConnectionPerformance {
                        trades_made: if old(self)@[conn_id].trades_made < u64::MAX {
                            (old(self)@[conn_id].trades_made + 1) as u64
                        } else {
                            u64::MAX
                        },
                        ..old(self)@[conn_id]
                    },
                )
            } else {
                old(self)@
            }),
    {
        match self.get(conn_id) {
            Some(p) => {
                let mut q = p;
                q.trades_made = p.trades_made.saturating_add(1);
                self.entries.insert(conn_id, q);
            },
            None => {},
        }
    }
}

/// The profit since the connection's previous tick: the whole profit on its
/// first tick.
pub open spec fn pnl_change_of(book: Map<usize, ConnectionPerformance>, conn_id: usize, pnl: i64) -> int {
    if book.contains_key(conn_id) {
        pnl - book[conn_id].last_pnl
    } else {
        pnl as int
    }
}

/// Notes the tick's profit and loss against the connection (creating its
/// record if needed) and, when the connection has traded before, appends a
/// performance record. Returns the profit change.
pub fn track_performance(
    book: &mut ConnectionBook,
    history: &mut BoundedFifo<PerformanceRecord>,
    conn_id: usize,
    now_ms: u64,
    tick: &MarketTick,
    trade_volume: i64,
) -> (change: i128)
    requires
        old(history).wf(),
    ensures
        change == pnl_change_of(old(book)@, conn_id, tick.pnl),
        final(book)@ == old(book)@.insert(
            conn_id,
            ConnectionPerformance {
                last_pnl: tick.pnl,
                ..if old(book)@.contains_key(conn_id) {
                    old(book)@[conn_id]
                } else {
                    fresh_performance()
                }
            },
        ),
        final(history).wf(),
        final(history).spec_capacity() == old(history).spec_capacity(),
        history_ok(old(history)@) ==> history_ok(final(history)@),
        final(history)@ == (if old(book)@.contains_key(conn_id) && old(book)@[conn_id].trades_made
            > 0 {
            pushed(
                old(history)@,
                old(history).spec_capacity(),
                PerformanceRecord {
                    conn_id,
                    timestamp_ms: now_ms,
                    momentum: tick.momentum,
                    forecast: tick.forecast,
                    position: tick.position,
                    trade_volume,
                    pnl_change: change,
                    price: tick.price,
                    total_pnl: tick.pnl,
                },
            )
        } else {
            old(history)@
        }),
{
    let prev = match book.get(conn_id) {
        Some(p) => p,
        None => ConnectionPerformance::new(),
    };
    let change = tick.pnl as i128 - prev.last_pnl as i128;
    book.entries.insert(conn_id, ConnectionPerformance { last_pnl: tick.pnl, ..prev });
    if prev.trades_made > 0 {
        let ghost before = history@;
        let ghost cap = history.spec_capacity();
        proof {
            history.lemma_bounds();
        }
        history.push(
            PerformanceRecord {
                conn_id,
                timestamp_ms: now_ms,
                momentum: tick.momentum,
                forecast: tick.forecast,
                position: tick.position,
                trade_volume,
                pnl_change: change,
                price: tick.price,
                total_pnl: tick.pnl,
            },
        );
        proof {
            if history_ok(before) {
                let s = history@;
                assert forall|i: int| 0 <= i < s.len() implies pnl_change_bounded(
                    #[trigger] s[i],
                ) by {
                    if i < s.len() - 1 {
                        if before.len() >= cap {
                            assert(s[i] == before[i + 1]);
                        } else {
                            assert(s[i] == before[i]);
                        }
                    }
                }
            }
        }
    }
    change
}

} // verus!
