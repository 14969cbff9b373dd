//! The receive session: reassembly of messages from the bytes read off the
//! connection, the tolerance for a stream that does not decode, and the
//! dispatch of each decoded message.
use vstd::prelude::*;
use crate::clock::{ClockOrigin, clock_reading};
use crate::codec::{Message, decode, decoded};
use crate::queue::{LedCommandQueue, LED_COMMAND_CAPACITY, enqueued};
use crate::session::{
    SessionState, after_connect_attempt, CONNECT_BACKOFF_MILLIS, MAX_IDLE_DECODE_FAILURES,
    NUM_LEDS, POLL_MILLIS, RX_BUFFER_LEN,
};

verus! {

/// What a read led to.
#[derive(Clone, Copy, Debug, PartialEq, Eq, Structural)]
pub enum RxStep {
    /// A complete message was decoded (and, through `receive`, dispatched).
    Received(Message),
    /// The bytes so far are not a message yet: read again.
    Waiting,
    /// Nothing new came and what is buffered does not decode: wait this many
    /// milliseconds, then read again.
    Poll(u64),
    /// The connection was dropped: connect again.
    Reconnect,
}

/// The receive session as a value: its state, the bytes buffered so far and
/// the count of idle reads in a row whose bytes did not decode.
pub struct RxView {
    pub state: SessionState,
    pub pending: Seq<u8>,
    pub failures: nat,
}

/// A session that dropped its connection.
pub open spec fn dropped() -> RxView {
    RxView { state: SessionState::Disconnected, pending: Seq::empty(), failures: 0 }
}

/// What a connected session `v` becomes, and what it reports, after a read
/// that gave the bytes `data` (none: the socket is drained for now).
pub open spec fn read_step(v: RxView, data: Seq<u8>) -> (RxView, RxStep) {
    if data.len() == 0 {
        match decoded(v.pending) {
            Ok(m) => (
                RxView { state: SessionState::Connected, pending: Seq::empty(), failures: 0 },
                RxStep::Received(m),
            ),
            Err(_) => if v.failures + 1 > MAX_IDLE_DECODE_FAILURES {
                (dropped(), RxStep::Reconnect)
            } else {
                (
                    RxView {
                        state: SessionState::Connected,
                        pending: v.pending,
                        failures: v.failures + 1,
                    },
                    RxStep::Poll(POLL_MILLIS),
                )
            },
        }
    } else if v.pending.len() + data.len() > RX_BUFFER_LEN {
        (dropped(), RxStep::Reconnect)
    } else {
        let buffered = v.pending + data;
        match decoded(buffered) {
            Ok(m) => (
                RxView { state: SessionState::Connected, pending: Seq::empty(), failures: v.failures },
                RxStep::Received(m),
            ),
            Err(_) => (
                RxView { state: SessionState::Connected, pending: buffered, failures: v.failures },
                RxStep::Waiting,
            ),
        }
    }
}

/// The session `v` after `n` idle reads in a row.
pub open spec fn idle_reads(v: RxView, n: nat) -> RxView
    decreases n,
{
    if n == 0 {
        v
    } else {
        read_step(idle_reads(v, (n - 1) as nat), Seq::empty()).0
    }
}

/// Decode-failure threshold: on a connection whose buffered bytes do not
/// decode, the session stays connected, keeping its bytes, through exactly
/// `MAX_IDLE_DECODE_FAILURES` idle reads, and the next idle read makes it
/// reconnect.
pub proof fn lemma_reconnects_after_idle_failures(v: RxView)
    requires
        v.state == SessionState::Connected,
        v.failures == 0,
        decoded(v.pending) is Err,
    ensures
        forall|n: nat|
            n <= MAX_IDLE_DECODE_FAILURES ==> idle_reads(v, n) == (RxView {
                state: SessionState::Connected,
                pending: v.pending,
                failures: n,
            }),
        read_step(idle_reads(v, MAX_IDLE_DECODE_FAILURES as nat), Seq::empty()) == (
            dropped(),
            RxStep::Reconnect,
        ),
{
    assert forall|n: nat| n <= MAX_IDLE_DECODE_FAILURES implies idle_reads(v, n) == (RxView {
        state: SessionState::Connected,
        pending: v.pending,
        failures: n,
    }) by {
        lemma_idle_reads(v, n);
    }
    lemma_idle_reads(v, MAX_IDLE_DECODE_FAILURES as nat);
}

proof fn lemma_idle_reads(v: RxView, n: nat)
    requires
        v.state == SessionState::Connected,
        v.failures == 0,
        decoded(v.pending) is Err,
        n <= MAX_IDLE_DECODE_FAILURES,
    ensures
        idle_reads(v, n) == (RxView { state: SessionState::Connected, pending: v.pending, failures: n }),
    decreases n,
{
    if n > 0 {
        lemma_idle_reads(v, (n - 1) as nat);
    }
}

/// The clock origin after `m` is dispatched at `now_millis`.
pub open spec fn origin_after(m: Message, now_millis: u64, origin: u32) -> u32 {
    match m {
        Message::InitBoard => clock_reading(now_millis),
        Message::InitReactionGame(_) => clock_reading(now_millis),
        _ => origin,
    }
}

/// The LED commands after `m` is dispatched.
pub open spec fn leds_after(m: Message, leds: Seq<(u8, bool)>) -> Seq<(u8, bool)> {
    match m {
        Message::LedUpdate(u) => if u.button_id < NUM_LEDS {
            enqueued(leds, (u.button_id, u.on), LED_COMMAND_CAPACITY as nat)
        } else {
            leds
        },
        _ => leds,
    }
}

/// Carries out `m`: a reset (`InitBoard` or `InitReactionGame`) moves the
/// clock origin to `now_millis`; an LED
/// update for a known LED becomes an LED command (one for an unknown LED is
/// ignored); a ping changes nothing, nor does a button press, which the
/// board should never receive.
pub fn handle_message(
    m: Message,
    now_millis: u64,
    origin: &mut ClockOrigin,
    leds: &mut LedCommandQueue,
)
    requires
        old(leds).wf(),
    ensures
        final(leds).wf(),
        final(origin)@ == origin_after(m, now_millis, old(origin)@),
        final(leds)@ == leds_after(m, old(leds)@),
{
    match m {
        Message::InitBoard | Message::InitReactionGame(_) => {
            origin.reset(now_millis);
        },
        Message::Ping(_) => {},
        Message::ButtonPress(_) => {},
        Message::LedUpdate(u) => {
            if (u.button_id as usize) < NUM_LEDS {
                let _ = leds.enqueue(u.button_id, u.on);
            }
        },
    }
}

pub struct RxSession {
    state: SessionState,
    buffer: Vec<u8>,
    failures: u32,
}

impl View for RxSession {
    type V = RxView;

    closed spec fn view(&self) -> RxView {
        RxView { state: self.state, pending: self.buffer@, failures: self.failures as nat }
    }
}

impl RxSession {
    /// The buffer keeps within its room and the failure count within the
    /// tolerance.
    pub open spec fn wf(&self) -> bool {
        self@.pending.len() <= RX_BUFFER_LEN && self@.failures <= MAX_IDLE_DECODE_FAILURES
    }

    pub fn new() -> (r: RxSession)
        ensures
            r.wf(),
            r@ == dropped(),
    {
        RxSession { state: SessionState::Disconnected, buffer: Vec::new(), failures: 0 }
    }

    pub fn state(&self) -> (r: SessionState)
        ensures
            r == self@.state,
    {
        self.state
    }

    /// Marks the start of a connection attempt.
    pub fn start_connect(&mut self)
        requires
            old(self).wf(),
        ensures
            final(self).wf(),
            final(self)@ == (RxView { state: SessionState::Connecting, ..old(self)@ }),
    {
        self.state = SessionState::Connecting;
    }

    /// Takes the outcome of a connection attempt; on failure gives the wait
    /// before the next one. A new connection starts with an empty buffer and
    /// no failures.
    pub fn on_connect_result(&mut self, ok: bool) -> (r: Option<u64>)
        requires
            old(self).wf(),
        ensures
            final(self).wf(),
            final(self)@ == (RxView {
                state: after_connect_attempt(ok),
                pending: Seq::empty(),
                failures: 0,
            }),
            r == (if ok {
                None
            } else {
                Some(CONNECT_BACKOFF_MILLIS)
            }),
    {
        self.buffer.clear();
        self.failures = 0;
        if ok {
            self.state = SessionState::Connected;
            None
        } else {
            self.state = SessionState::Disconnected;
            Some(CONNECT_BACKOFF_MILLIS)
        }
    }

    /// Takes a read error: a reset connection is dropped, any other error
    /// changes nothing.
    pub fn on_read_error(&mut self, connection_reset: bool)
        requires
            old(self).wf(),
        ensures
            final(self).wf(),
            connection_reset ==> final(self)@ == dropped(),
            !connection_reset ==> final(self)@ == old(self)@,
    {
        if connection_reset {
            self.drop_connection();
        }
    }

    fn drop_connection(&mut self)
        ensures
            final(self).wf(),
            final(self)@ == dropped(),
    {
        self.state = SessionState::Disconnected;
        self.buffer.clear();
        self.failures = 0;
    }

    /// Takes the bytes of one read on a connected session (none: the socket
    /// is drained for now) and tries to decode what is buffered.
    pub fn on_read(&mut self, data: &[u8]) -> (r: RxStep)
        requires
            old(self).wf(),
            old(self)@.state == SessionState::Connected,
        ensures
            final(self).wf(),
            (final(self)@, r) == read_step(old(self)@, data@),
    {
        if data.len() == 0 {
            match decode(self.buffer.as_slice()) {
                Ok(m) => {
                    self.buffer.clear();
                    self.failures = 0;
                    RxStep::Received(m)
                },
                Err(_) => {
                    if self.failures >= MAX_IDLE_DECODE_FAILURES {
                        self.drop_connection();
                        RxStep::Reconnect
                    } else {
                        self.failures = self.failures + 1;
                        RxStep::Poll(POLL_MILLIS)
                    }
                },
            }
        } else if data.len() > RX_BUFFER_LEN - self.buffer.len() {
            self.drop_connection();
            RxStep::Reconnect
        } else {
            let ghost before = self.buffer@;
            let mut i: usize = 0;
            while i < data.len()
                invariant
                    i <= data@.len(),
                    before.len() + data@.len() <= RX_BUFFER_LEN,
                    self.buffer@ == before + data@.take(i as int),
                    self.state == old(self).state,
                    self.failures == old(self).failures,
                    self.failures <= MAX_IDLE_DECODE_FAILURES,
                decreases data@.len() - i,
            {
                self.buffer.push(data[i]);
                i = i + 1;
                assert(self.buffer@ =~= before + data@.take(i as int));
            }
            assert(data@.take(data@.len() as int) =~= data@);
            match decode(self.buffer.as_slice()) {
                Ok(m) => {
                    self.buffer.clear();
                    RxStep::Received(m)
                },
                Err(_) => RxStep::Waiting,
            }
        }
    }

    /// One read on a connected session, with the dispatch of the message it
    /// completes, if any (see `handle_message`).
    pub fn receive(
        &mut self,
        data: &[u8],
        now_millis: u64,
        origin: &mut ClockOrigin,
        leds: &mut LedCommandQueue,
    ) -> (r: RxStep)
        requires
            old(self).wf(),
            old(self)@.state == SessionState::Connected,
            old(leds).wf(),
        ensures
            final(self).wf(),
            final(leds).wf(),
            (final(self)@, r) == read_step(old(self)@, data@),
            r matches RxStep::Received(m) ==> final(origin)@ == origin_after(
                m,
                now_millis,
                old(origin)@,
            ) && final(leds)@ == leds_after(m, old(leds)@),
            !(r is Received) ==> final(origin)@ == old(origin)@ && final(leds)@ == old(leds)@,
    {
        let r = self.on_read(data);
        if let RxStep::Received(m) = r {
            handle_message(m, now_millis, origin, leds);
        }
        r
    }
}

} // verus!
