//! The two network sessions of the board, each a state machine. A driver
//! performs the I/O (connect, read, write, sleep) and feeds each outcome to
//! the session, which decides what happens next.
//!
//! The transmit session drains the button press queue and sends each press,
//! timed relative to the clock origin. The receive session reassembles
//! messages from the bytes it reads and dispatches them: a reset moves the
//! clock origin, an LED update becomes an LED command.
use vstd::prelude::*;
use crate::clock::{ClockOrigin, millis_since_origin, since_origin};
use crate::codec::{ButtonPress, Message, encode, encoding};
use crate::queue::ButtonPressQueue;

verus! {

/// Wait after a failed connection attempt.
pub const CONNECT_BACKOFF_MILLIS: u64 = 1000;

/// Wait of the transmit session when the button press queue is empty.
pub const THROTTLE_MILLIS: u64 = 10;

/// Wait of the receive session after an idle read whose bytes do not decode.
pub const POLL_MILLIS: u64 = 1000;

/// Idle reads in a row whose bytes do not decode that the receive session
/// tolerates; the next one makes it reconnect.
pub const MAX_IDLE_DECODE_FAILURES: u32 = 3;

/// Room of the receive session's reassembly buffer.
pub const RX_BUFFER_LEN: usize = 1000;

/// LEDs of the board; an LED update for another id is ignored.
pub const NUM_LEDS: usize = 6;

#[derive(Clone, Copy, Debug, PartialEq, Eq, Structural)]
pub enum SessionState {
    Disconnected,
    Connecting,
    Connected,
}

/// The state after a connection attempt that succeeded (`ok`) or failed.
pub open spec fn after_connect_attempt(ok: bool) -> SessionState {
    if ok {
        SessionState::Connected
    } else {
        SessionState::Disconnected
    }
}

/// The state after the connection attempts with the outcomes `outcomes`, made
/// from a disconnected session, and the number of backoff waits among them.
pub open spec fn connect_run(outcomes: Seq<bool>) -> (SessionState, nat)
    decreases outcomes.len(),
{
    if outcomes.len() == 0 {
        (SessionState::Disconnected, 0)
    } else {
        let (_, waits) = connect_run(outcomes.drop_last());
        (
            after_connect_attempt(outcomes.last()),
            if outcomes.last() {
                waits
            } else {
                waits + 1
            },
        )
    }
}

/// `k` failed attempts in a row.
pub open spec fn failures(k: nat) -> Seq<bool> {
    Seq::new(k, |i: int| false)
}

/// Reconnect convergence: when connecting fails `k` times and then succeeds,
/// the session is connected after exactly `k` backoff waits, and not before.
pub proof fn lemma_connects_after_backoffs(k: nat)
    ensures
        connect_run(failures(k).push(true)) == (SessionState::Connected, k),
        forall|j: nat| j <= k ==> connect_run(failures(j)) == (SessionState::Disconnected, j),
{
    assert forall|j: nat| j <= k implies connect_run(failures(j)) == (
        SessionState::Disconnected,
        j,
    ) by {
        lemma_failures_run(j);
    }
    lemma_failures_run(k);
    assert(failures(k).push(true).drop_last() =~= failures(k));
}

proof fn lemma_failures_run(j: nat)
    ensures
        connect_run(failures(j)) == (SessionState::Disconnected, j),
    decreases j,
{
    if j > 0 {
        lemma_failures_run((j - 1) as nat);
        assert(failures(j).drop_last() =~= failures((j - 1) as nat));
    }
}

/// What the outcome of a write to the connection was.
#[derive(Clone, Copy, Debug, PartialEq, Eq, Structural)]
pub enum WriteOutcome {
    Written,
    /// The peer closed or reset the connection.
    ConnectionReset,
    /// Any other error, taken as transient.
    Failed,
}

/// What the transmit session asks its driver to do next.
#[derive(Debug)]
pub enum TxAction {
    /// Open the connection, then report with `on_connect_result`.
    Connect,
    /// Wait this many milliseconds before trying again.
    Sleep(u64),
    /// The press of this button predates the last reset: it was dropped.
    DropStale(u8),
    /// Write these bytes, then report with `on_write_result`.
    Send(Vec<u8>),
}

pub struct TxSession {
    state: SessionState,
}

impl View for TxSession {
    type V = SessionState;

    closed spec fn view(&self) -> SessionState {
        self.state
    }
}

impl TxSession {
    pub fn new() -> (r: TxSession)
        ensures
            r@ == SessionState::Disconnected,
    {
        TxSession { state: SessionState::Disconnected }
    }

    pub fn state(&self) -> (r: SessionState)
        ensures
            r == self@,
    {
        self.state
    }

    /// Takes the outcome of a connection attempt; on failure gives the wait
    /// before the next one.
    pub fn on_connect_result(&mut self, ok: bool) -> (r: Option<u64>)
        ensures
            final(self)@ == after_connect_attempt(ok),
            r == (if ok {
                None
            } else {
                Some(CONNECT_BACKOFF_MILLIS)
            }),
    {
        if ok {
            self.state = SessionState::Connected;
            None
        } else {
            self.state = SessionState::Disconnected;
            Some(CONNECT_BACKOFF_MILLIS)
        }
    }

    /// The next step. Unconnected, the session asks to connect and leaves
    /// the queue alone. Connected, it takes the oldest press out of the
    /// queue: a stale one is dropped, any other is encoded as a
    /// `ButtonPress` timed relative to `origin` and handed out to be sent;
    /// on an empty queue it asks to wait for the throttle interval.
    pub fn next_action(&mut self, queue: &mut ButtonPressQueue, origin: &ClockOrigin) -> (r:
        TxAction)
        requires
            old(queue).wf(),
        ensures
            final(queue).wf(),
            old(self)@ != SessionState::Connected ==> final(self)@ == SessionState::Connecting
                && r is Connect && final(queue)@ == old(queue)@,
            old(self)@ == SessionState::Connected && old(queue)@.len() == 0 ==> final(self)@
                == SessionState::Connected && r == TxAction::Sleep(THROTTLE_MILLIS)
                && final(queue)@ == old(queue)@,
            old(self)@ == SessionState::Connected && old(queue)@.len() > 0 ==> final(self)@
                == SessionState::Connected && final(queue)@ == old(queue)@.drop_first() && ({
                let (button_id, press_time) = old(queue)@[0];
                let millis = since_origin(press_time, origin@);
                if millis == 0 {
                    r == TxAction::DropStale(button_id)
                } else {
                    r is Send && r->Send_0@ == encoding(
                        Message::ButtonPress(
                            ButtonPress { button_id: button_id, millis_since_init: millis },
                        ),
                    )
                }
            }),
    {
        if self.state != SessionState::Connected {
            self.state = SessionState::Connecting;
            return TxAction::Connect;
        }
        match queue.dequeue() {
            None => TxAction::Sleep(THROTTLE_MILLIS),
            Some((button_id, press_time)) => {
                let millis = millis_since_origin(press_time, origin.get());
                if millis == 0 {
                    TxAction::DropStale(button_id)
                } else {
                    let message = Message::ButtonPress(
                        ButtonPress { button_id, millis_since_init: millis },
                    );
                    TxAction::Send(encode(&message))
                }
            },
        }
    }

    /// Takes the outcome of a write: a reset connection is abandoned, any
    /// other outcome keeps it (a press that failed to go out is not sent again).
    pub fn on_write_result(&mut self, outcome: WriteOutcome)
        ensures
            outcome == WriteOutcome::ConnectionReset ==> final(self)@
                == SessionState::Disconnected,
            outcome != WriteOutcome::ConnectionReset ==> final(self)@ == old(self)@,
    {
        if outcome == WriteOutcome::ConnectionReset {
            self.state = SessionState::Disconnected;
        }
    }
}

} // verus!
