use vstd::prelude::*;
use crate::config::Config;
use crate::signal::MarketTick;

verus! {

/// Where one connection stands.
#[derive(Clone, Copy, Debug, PartialEq, Eq, Structural)]
pub enum Phase {
    Disconnected,
    Connecting,
    Handshaking,
    Streaming,
}

/// An inbound message, decoded.
#[derive(Clone, Debug)]
pub enum Inbound {
    /// The handshake acknowledgement, with the player id it echoes, if any.
    ConnectionAck { player_id: Option<String> },
    State { tick: MarketTick },
    /// A puzzle; `impact` in millionths.
    Puzzle { impact: i64 },
    /// The end of a game; `pnl` in millionths.
    Finish { pnl: i64 },
    /// Any other event name.
    Other,
    /// Text that did not decode.
    Malformed,
}

/// What happened to a connection.
#[derive(Clone, Debug)]
pub enum SessionEvent {
    Connected,
    ConnectFailed,
    /// A send or a receive failed.
    TransportFailed,
    /// The peer closed the stream.
    StreamEnded,
    /// The pause before reconnecting is over.
    DelayElapsed,
    Message { message: Inbound },
}

/// An outbound message; the transport adds the identity and the alias.
#[derive(Clone, Copy, Debug, PartialEq, Eq, Structural)]
pub enum Outbound {
    Connection { conn_id: usize },
    Start,
    Trade { volume: i64 },
    Skip,
}

/// What the transport must do next, in order.
#[derive(Clone, Copy, Debug, PartialEq, Eq, Structural)]
pub enum Action {
    Connect,
    Send { message: Outbound },
    Wait { seconds: u64 },
    /// Run the signal engine on a tick, trade on its volume, and optimise.
    Evaluate { tick: MarketTick },
}

/// A puzzle trades a fixed size in the direction of its impact, then always
/// skips ahead.
pub open spec fn puzzle_actions(impact: i64, volume: i32) -> Seq<Action> {
    if impact > 0 {
        seq![
            Action::Send { message: Outbound::Trade { volume: volume as i64 } },
            Action::Send { message: Outbound::Skip },
        ]
    } else if impact < 0 {
        let sell = (0 - volume) as i64;
        seq![
            Action::Send { message: Outbound::Trade { volume: sell } },
            Action::Send { message: Outbound::Skip },
        ]
    } else {
        seq![Action::Send { message: Outbound::Skip }]
    }
}

pub open spec fn is_live(p: Phase) -> bool {
    p == Phase::Handshaking || p == Phase::Streaming
}

/// The next phase and the actions, for one event in one phase. `delay_s` is
/// the pause drawn for a reconnect.
pub open spec fn transition(
    phase: Phase,
    conn_id: usize,
    identity: Seq<char>,
    puzzle_volume: i32,
    event: SessionEvent,
    delay_s: u64,
) -> (Phase, Seq<Action>) {
    let back_off = (Phase::Disconnected, seq![Action::Wait { seconds: delay_s }]);
    match event {
        SessionEvent::Connected => if phase == Phase::Connecting {
            (Phase::Handshaking, seq![Action::Send { message: Outbound::Connection { conn_id } }])
        } else {
            (phase, Seq::empty())
        },
        SessionEvent::ConnectFailed => if phase == Phase::Connecting {
            back_off
        } else {
            (phase, Seq::empty())
        },
        SessionEvent::TransportFailed | SessionEvent::StreamEnded => if is_live(phase) {
            back_off
        } else {
            (phase, Seq::empty())
        },
        SessionEvent::DelayElapsed => if phase == Phase::Disconnected {
            (Phase::Connecting, seq![Action::Connect])
        } else {
            (phase, Seq::empty())
        },
        SessionEvent::Message { message } => if !is_live(phase) {
            (phase, Seq::empty())
        } else {
            match message {
                Inbound::ConnectionAck { player_id } => match player_id {
                    Some(id) => if id@ == identity {
                        (Phase::Streaming, seq![Action::Send { message: Outbound::Start }])
                    } else {
                        (phase, Seq::empty())
                    },
                    None => (phase, Seq::empty()),
                },
                Inbound::State { tick } => (phase, seq![Action::Evaluate { tick }]),
                Inbound::Puzzle { impact } => (phase, puzzle_actions(impact, puzzle_volume)),
                Inbound::Finish { pnl } => back_off,
                Inbound::Other | Inbound::Malformed => (phase, Seq::empty()),
            }
        },
    }
}

/// Relies on rand::Rng::gen_range over rand::thread_rng: a draw from
/// `lo..=hi`, which panics only when the range is empty.
#[verifier::external_body]
fn draw_delay(lo: u64, hi: u64) -> (r: u64)
    requires
        lo <= hi,
    ensures
        lo <= r <= hi,
{
    rand::Rng::gen_range(&mut rand::thread_rng(), lo..=hi)
}

/// The protocol state of one connection.
pub struct Session {
    pub conn_id: usize,
    pub phase: Phase,
}

fn puzzle_trade(impact: i64, volume: i32) -> (r: Vec<Action>)
    ensures
        r@ == puzzle_actions(impact, volume),
{
    if impact > 0 {
        vec![
            Action::Send { message: Outbound::Trade { volume: volume as i64 } },
            Action::Send { message: Outbound::Skip },
        ]
    } else if impact < 0 {
        let sell: i64 = -(volume as i64);
        vec![
            Action::Send { message: Outbound::Trade { volume: sell } },
            Action::Send { message: Outbound::Skip },
        ]
    } else {
        vec![Action::Send { message: Outbound::Skip }]
    }
}

impl Session {
    /// A session about to make its first connection attempt.
    pub fn new(conn_id: usize) -> (r: Session)
        ensures
            r.conn_id == conn_id,
            r.phase == Phase::Connecting,
    {
        Session { conn_id, phase: Phase::Connecting }
    }

    /// Takes one event with a given reconnect pause.
    pub fn step_with_delay(&mut self, event: SessionEvent, delay_s: u64, config: &Config) -> (r: Vec<Action>)
        ensures
            final(self).conn_id == old(self).conn_id,
            (final(self).phase, r@) == transition(
                old(self).phase,
                old(self).conn_id,
                config.identity@,
                config.puzzle_volume,
                event,
                delay_s,
            ),
    {
        let live = match self.phase {
            Phase::Handshaking | Phase::Streaming => true,
            _ => false,
        };
        match event {
            SessionEvent::Connected => {
                if self.phase == Phase::Connecting {
                    self.phase = Phase::Handshaking;
                    vec![Action::Send { message: Outbound::Connection { conn_id: self.conn_id } }]
                } else {
                    Vec::new()
                }
            },
            SessionEvent::ConnectFailed => {
                if self.phase == Phase::Connecting {
                    self.phase = Phase::Disconnected;
                    vec![Action::Wait { seconds: delay_s }]
                } else {
                    Vec::new()
                }
            },
            SessionEvent::TransportFailed | SessionEvent::StreamEnded => {
                if live {
                    self.phase = Phase::Disconnected;
                    vec![Action::Wait { seconds: delay_s }]
                } else {
                    Vec::new()
                }
            },
            SessionEvent::DelayElapsed => {
                if self.phase == Phase::Disconnected {
                    self.phase = Phase::Connecting;
                    vec![Action::Connect]
                } else {
                    Vec::new()
                }
            },
            SessionEvent::Message { message } => {
                if !live {
                    Vec::new()
                } else {
                    match message {
                        Inbound::ConnectionAck { player_id } => match player_id {
                            Some(id) => {
                                if id == config.identity {
                                    self.phase = Phase::Streaming;
                                    vec![Action::Send { message: Outbound::Start }]
                                } else {
                                    Vec::new()
                                }
                            },
                            None => Vec::new(),
                        },
                        Inbound::State { tick } => vec![Action::Evaluate { tick }],
                        Inbound::Puzzle { impact } => puzzle_trade(impact, config.puzzle_volume),
                        Inbound::Finish { pnl } => {
                            self.phase = Phase::Disconnected;
                            vec![Action::Wait { seconds: delay_s }]
                        },
                        Inbound::Other | Inbound::Malformed => Vec::new(),
                    }
                }
            },
        }
    }

    /// Takes one event, drawing the reconnect pause at random within the
    /// configured bounds.
    pub fn step(&mut self, event: SessionEvent, config: &Config) -> (r: Vec<Action>)
        requires
            config.wf(),
        ensures
            final(self).conn_id == old(self).conn_id,
            exists|d: u64|
                config.min_reconnect_delay_s <= d <= config.max_reconnect_delay_s && (
                final(self).phase,
                r@,
            ) == #[trigger] transition(
                old(self).phase,
                old(self).conn_id,
                config.identity@,
                config.puzzle_volume,
                event,
                d,
            ),
    {
        let d = draw_delay(config.min_reconnect_delay_s, config.max_reconnect_delay_s);
        self.step_with_delay(event, d, config)
    }
}

} // verus!
