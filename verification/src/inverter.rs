use vstd::prelude::*;

use crate::channels::Channel;
use crate::error::Error;
use crate::packet::{Packet, PacketModel, spec_is_reply_to};
use crate::serial::Serial;

verus! {

/// What travels on the inverter channels.
#[derive(Clone, Debug)]
pub enum ChannelData {
    Shutdown,
    Packet(Packet),
    Connected(Serial),
    Disconnect(Serial),
}

/// Whether entry `i` of an inbound log is a packet answering `req`.
pub open spec fn matches_at(log: Seq<ChannelData>, i: int, req: PacketModel) -> bool {
    0 <= i < log.len() && match log[i] {
        ChannelData::Packet(p) => spec_is_reply_to(p@, req),
        _ => false,
    }
}

/// The packet model stored at entry `i` of an inbound log.
pub open spec fn packet_model_at(log: Seq<ChannelData>, i: int) -> PacketModel
    recommends
        0 <= i < log.len(),
        log[i] is Packet,
{
    match log[i] {
        ChannelData::Packet(p) => p@,
        _ => arbitrary(),
    }
}

/// A subscription on the inbound broadcast, taken before a request is sent
/// so that its reply cannot be missed. Correlation is by fingerprint: the
/// holder filters the log rather than consulting a registry.
pub struct WaitForReply {
    cursor: usize,
}

impl WaitForReply {
    /// The first inbound entry this subscription observes.
    pub closed spec fn spec_cursor(&self) -> int {
        self.cursor as int
    }

    /// Subscribe to the inbound broadcast. Everything sent after this call
    /// is visible to `wait`.
    pub fn subscribe(ch: &mut Channel<ChannelData>) -> (r: WaitForReply)
        ensures
            final(ch).log() == old(ch).log(),
            final(ch).spec_receivers() > 0,
            final(ch).spec_receivers() >= old(ch).spec_receivers(),
            r.spec_cursor() == old(ch).log().len(),
    {
        WaitForReply { cursor: ch.subscribe() }
    }

    /// Return the first packet after the subscription point whose
    /// fingerprint matches the request; fail with `Timeout` when no such
    /// packet has arrived. The inbound log stands for everything that
    /// arrived within the reply window.
    pub fn wait_for_reply(&self, ch: &Channel<ChannelData>, req: &Packet) -> (r: Result<
        Packet,
        Error,
    >)
        ensures
            match r {
                Ok(p) => exists|i: int|
                    #![auto]
                    self.spec_cursor() <= i < ch.log().len() && matches_at(ch.log(), i, req@) && p@
                        == packet_model_at(ch.log(), i) && (forall|j: int|
                        self.spec_cursor() <= j < i ==> !matches_at(ch.log(), j, req@)),
                Err(e) => e == Error::Timeout && forall|i: int|
                    self.spec_cursor() <= i ==> !matches_at(ch.log(), i, req@),
            },
    {
        let mut i: usize = self.cursor;
        while i < ch.len()
            invariant
                self.cursor <= i,
                forall|j: int| self.spec_cursor() <= j < i ==> !matches_at(ch.log(), j, req@),
            decreases ch.log().len() - i,
        {
            match ch.get(i) {
                Some(entry) => {
                    match entry {
                        ChannelData::Packet(p) => {
                            if p.is_reply_to(req) {
                                let reply = p.duplicate();
                                proof {
                                    let wi = i as int;
                                    assert(matches_at(ch.log(), wi, req@));
                                    assert(reply@ == packet_model_at(ch.log(), wi));
                                }
                                return Ok(reply);
                            }
                        },
                        _ => {},
                    }
                },
                None => {},
            }
            i += 1;
        }
        Err(Error::Timeout)
    }
}

// ---------------------------------------------------------------------------
// The write half: ordering and pacing
// ---------------------------------------------------------------------------
/// The packets among a sequence of channel entries, in order.
pub open spec fn packets_of(s: Seq<ChannelData>) -> Seq<PacketModel>
    decreases s.len(),
{
    if s.len() == 0 {
        Seq::empty()
    } else {
        let rest = packets_of(s.drop_last());
        match s.last() {
            ChannelData::Packet(p) => rest.push(p@),
            _ => rest,
        }
    }
}

/// The write half of a session: it consumes the outbound queue in order and
/// spaces consecutive frames at least `delay_ms` apart on the wire.
pub struct InverterWriter {
    delay_ms: u64,
    last_sent_at: Option<u64>,
    cursor: usize,
    sent: Ghost<Seq<(int, PacketModel)>>,
}

impl InverterWriter {
    /// The minimum wall-clock gap between frames.
    pub closed spec fn spec_delay_ms(&self) -> u64 {
        self.delay_ms
    }

    /// How many queue entries have been consumed.
    pub closed spec fn spec_cursor(&self) -> int {
        self.cursor as int
    }

    /// The wire history: each frame written, with its send time.
    pub closed spec fn spec_sent(&self) -> Seq<(int, PacketModel)> {
        self.sent@
    }

    /// Send times are spaced by at least `delay_ms` and the last one is
    /// recorded for pacing.
    pub closed spec fn wf(&self) -> bool {
        &&& (match self.last_sent_at {
            Option::None => self.sent@.len() == 0,
            Option::Some(t) => self.sent@.len() > 0 && self.sent@.last().0 == t as int,
        })
        &&& (forall|i: int|
            0 <= i < self.sent@.len() - 1 ==> #[trigger] self.sent@[i + 1].0 >= self.sent@[i].0
                + self.delay_ms)
    }

    /// The frames written so far are exactly the packets of the consumed
    /// queue prefix, in queue order.
    pub open spec fn consistent_with(&self, queue: Seq<ChannelData>) -> bool {
        &&& self.spec_cursor() <= queue.len()
        &&& self.spec_sent().map(|i: int, e: (int, PacketModel)| e.1) == packets_of(
            queue.take(self.spec_cursor()),
        )
    }

    pub fn new(delay_ms: u64) -> (r: InverterWriter)
        ensures
            r.wf(),
            r.spec_delay_ms() == delay_ms,
            r.spec_cursor() == 0,
            r.spec_sent() == Seq::<(int, PacketModel)>::empty(),
    {
        InverterWriter { delay_ms, last_sent_at: None, cursor: 0, sent: Ghost(Seq::empty()) }
    }

    /// The earliest time the next frame may be written: the previous send
    /// plus the pacing floor.
    pub closed spec fn spec_next_allowed(&self) -> int {
        match self.last_sent_at {
            Option::None => 0,
            Option::Some(t) => t + self.spec_delay_ms(),
        }
    }

    /// Whether the pacing floor has passed at time `now`.
    pub fn can_send(&self, now: u64) -> (r: bool)
        ensures
            r == (now as int >= self.spec_next_allowed()),
    {
        match self.last_sent_at {
            Option::None => true,
            Option::Some(t) => now >= t && now - t >= self.delay_ms,
        }
    }

    /// Look at the next queue entry and, when it is a frame and the pacing
    /// floor has passed, put it on the wire at time `now`. Returns the frame
    /// written, if any.
    pub fn write_next(&mut self, queue: &Channel<ChannelData>, now: u64) -> (r: Option<Packet>)
        requires
            old(self).wf(),
            old(self).consistent_with(queue.log()),
        ensures
            final(self).wf(),
            final(self).consistent_with(queue.log()),
            final(self).spec_delay_ms() == old(self).spec_delay_ms(),
            match r {
                Some(p) => {
                    &&& old(self).spec_cursor() < queue.log().len()
                    &&& (queue.log()[old(self).spec_cursor()] matches ChannelData::Packet(q) && q@
                        == p@)
                    &&& now >= old(self).spec_next_allowed()
                    &&& final(self).spec_sent() == old(self).spec_sent().push((now as int, p@))
                    &&& final(self).spec_cursor() == old(self).spec_cursor() + 1
                },
                // a frame is only withheld for one of three reasons: the
                // queue is drained, the entry carries no frame, or the
                // pacing floor has not passed
                None => final(self).spec_sent() == old(self).spec_sent() && ({
                    ||| (old(self).spec_cursor() == queue.log().len() && *final(self) == *old(
                        self,
                    ))
                    ||| (old(self).spec_cursor() < queue.log().len() && !(queue.log()[old(
                        self,
                    ).spec_cursor()] is Packet) && final(self).spec_cursor() == old(
                        self,
                    ).spec_cursor() + 1 && final(self).spec_next_allowed() == old(
                        self,
                    ).spec_next_allowed())
                    ||| (old(self).spec_cursor() < queue.log().len() && queue.log()[old(
                        self,
                    ).spec_cursor()] is Packet && (now as int) < old(self).spec_next_allowed()
                        && *final(self) == *old(self))
                }),
            },
    {
        if self.cursor >= queue.len() {
            return None;
        }
        let entry = match queue.get(self.cursor) {
            Some(e) => e,
            None => {
                return None;
            },
        };
        match entry {
            ChannelData::Packet(p) => {
                if !self.can_send(now) {
                    return None;
                }
                let ghost old_self = *self;
                let frame = p.duplicate();
                self.last_sent_at = Some(now);
                self.cursor = self.cursor + 1;
                proof {
                    self.sent@ = old_self.sent@.push((now as int, frame@));
                    let t = queue.log().take(old_self.cursor as int);
                    let e = queue.log()[old_self.cursor as int];
                    assert(queue.log().take(self.cursor as int) =~= t.push(e));
                    assert(t.push(e).drop_last() =~= t);
                    assert(packets_of(t.push(e)) == packets_of(t).push(frame@));
                    assert(self.spec_sent().map(|i: int, e: (int, PacketModel)| e.1)
                        =~= old_self.spec_sent().map(|i: int, e: (int, PacketModel)| e.1).push(
                        frame@,
                    ));
                }
                Some(frame)
            },
            _ => {
                // A shutdown or connection notice carries no frame; step past it.
                let ghost old_self = *self;
                self.cursor = self.cursor + 1;
                proof {
                    let t = queue.log().take(old_self.cursor as int);
                    let e = queue.log()[old_self.cursor as int];
                    assert(queue.log().take(self.cursor as int) =~= t.push(e));
                    assert(t.push(e).drop_last() =~= t);
                    assert(packets_of(t.push(e)) == packets_of(t));
                }
                None
            },
        }
    }
}

/// Per-inverter pacing: any two frames the writer has put on the wire stand
/// at least `delay_ms` apart, the earlier one first. Together with
/// `consistent_with`, which pins the wire order to the queue order, this is
/// the per-inverter ordering guarantee.
pub proof fn lemma_write_spacing(w: InverterWriter, i: int, j: int)
    requires
        w.wf(),
        0 <= i < j < w.spec_sent().len(),
    ensures
        w.spec_sent()[j].0 >= w.spec_sent()[i].0 + w.spec_delay_ms(),
    decreases j - i,
{
    if j == i + 1 {
        assert(w.spec_sent()[i + 1].0 >= w.spec_sent()[i].0 + w.spec_delay_ms());
    } else {
        lemma_write_spacing(w, i, j - 1);
        assert(w.spec_sent()[(j - 1) + 1].0 >= w.spec_sent()[j - 1].0 + w.spec_delay_ms());
    }
}

// ---------------------------------------------------------------------------
// The session state machine
// ---------------------------------------------------------------------------
/// The connection lifecycle of one inverter session.
#[derive(Clone, Copy, Debug, PartialEq, Eq, Structural)]
pub enum SessionState {
    Disconnected,
    Connecting,
    Connected,
    Draining,
}

/// What the runtime reports to the session.
#[derive(Clone, Debug)]
pub enum SessionEvent {
    /// The backoff wait has elapsed; a connect attempt may start.
    BackoffElapsed,
    ConnectSucceeded,
    ConnectFailed,
    /// A frame was decoded from the socket.
    FrameArrived(Packet),
    /// No inbound frame within the configured read timeout.
    ReadTimedOut,
    /// The inbound byte stream held a malformed frame.
    StreamInvalid,
    /// The peer closed the socket.
    StreamClosed,
    /// Outstanding waiters have been failed and the socket is closed.
    DrainComplete,
    ShutdownRequested,
}

/// What the session asks the runtime to do.
#[derive(Clone, Debug)]
pub enum SessionAction {
    /// Open a TCP connection to the configured host and port.
    OpenSocket,
    /// Broadcast an inbound frame to `from_inverter`.
    BroadcastInbound(Packet),
    /// Answer a heartbeat with its echo.
    EchoHeartbeat(Packet),
    /// Close the socket, fail outstanding waiters with a connection-lost
    /// error, and count the disconnect.
    CloseAndDrain,
    /// Wait out the current backoff, then report `BackoffElapsed`.
    SleepBackoff(u64),
    /// Leave the session loop for good.
    StopTask,
}

/// The starting backoff wait.
pub const BACKOFF_START_MS: u64 = 1000;

/// The longest backoff wait.
pub const BACKOFF_CAP_MS: u64 = 60000;

/// The backoff wait that follows a failed attempt: doubled, capped.
pub open spec fn spec_next_backoff(b: u64) -> u64 {
    if 2 * b >= BACKOFF_CAP_MS {
        BACKOFF_CAP_MS
    } else if 2 * b < BACKOFF_START_MS {
        BACKOFF_START_MS
    } else {
        (2 * b) as u64
    }
}

pub fn next_backoff(b: u64) -> (r: u64)
    ensures
        r == spec_next_backoff(b),
{
    if b >= BACKOFF_CAP_MS / 2 {
        BACKOFF_CAP_MS
    } else if 2 * b < BACKOFF_START_MS {
        BACKOFF_START_MS
    } else {
        2 * b
    }
}

/// One inverter session: the connection state, the current backoff wait,
/// and the heartbeat policy.
pub struct Session {
    pub state: SessionState,
    pub backoff_ms: u64,
    pub heartbeats: bool,
}

impl Session {
    pub fn new(heartbeats: bool) -> (r: Session)
        ensures
            r.state == SessionState::Disconnected,
            r.backoff_ms == BACKOFF_START_MS,
            r.heartbeats == heartbeats,
    {
        Session { state: SessionState::Disconnected, backoff_ms: BACKOFF_START_MS, heartbeats }
    }

    /// Drive the state machine one step. The returned actions are performed
    /// by the runtime in order; the events they produce come back through
    /// this function.
    ///
    /// Transitions: `Disconnected` waits out the backoff then connects;
    /// `Connecting` either enters `Connected` (resetting the backoff) or
    /// returns to `Disconnected` with the backoff doubled, capped at one
    /// minute; `Connected` broadcasts every inbound frame, echoes heartbeats
    /// when enabled, and drains on read timeout, codec error, or loss of the
    /// socket; `Draining` returns to `Disconnected`.
    pub fn step(&mut self, event: SessionEvent) -> (actions: Vec<SessionAction>)
        ensures
            ({
                let o = *old(self);
                let s = *final(self);
                match event {
                    SessionEvent::BackoffElapsed => if o.state == SessionState::Disconnected {
                        s.state == SessionState::Connecting && s.backoff_ms == o.backoff_ms
                            && actions@ =~= seq![SessionAction::OpenSocket]
                    } else {
                        s == o && actions@.len() == 0
                    },
                    SessionEvent::ConnectSucceeded => if o.state == SessionState::Connecting {
                        s.state == SessionState::Connected && s.backoff_ms == BACKOFF_START_MS
                            && actions@.len() == 0
                    } else {
                        s == o && actions@.len() == 0
                    },
                    SessionEvent::ConnectFailed => if o.state == SessionState::Connecting {
                        s.state == SessionState::Disconnected && s.backoff_ms == spec_next_backoff(
                            o.backoff_ms,
                        ) && actions@ =~= seq![SessionAction::SleepBackoff(o.backoff_ms)]
                    } else {
                        s == o && actions@.len() == 0
                    },
                    SessionEvent::FrameArrived(p) => if o.state == SessionState::Connected {
                        &&& s == o
                        &&& actions@.len() >= 1
                        &&& (actions@[0] matches SessionAction::BroadcastInbound(q) && q@ == p@)
                        &&& if p@ is Heartbeat && o.heartbeats {
                            actions@.len() == 2 && (actions@[1] matches
                            SessionAction::EchoHeartbeat(q) && q@ == p@)
                        } else {
                            actions@.len() == 1
                        }
                    } else {
                        s == o && actions@.len() == 0
                    },
                    SessionEvent::ReadTimedOut | SessionEvent::StreamInvalid
                        | SessionEvent::StreamClosed => if o.state == SessionState::Connected {
                        s.state == SessionState::Draining && s.backoff_ms == o.backoff_ms
                            && actions@ =~= seq![SessionAction::CloseAndDrain]
                    } else {
                        s == o && actions@.len() == 0
                    },
                    SessionEvent::DrainComplete => if o.state == SessionState::Draining {
                        s.state == SessionState::Disconnected && s.backoff_ms == o.backoff_ms
                            && actions@ =~= seq![SessionAction::SleepBackoff(o.backoff_ms)]
                    } else {
                        s == o && actions@.len() == 0
                    },
                    SessionEvent::ShutdownRequested => s.state == SessionState::Disconnected
                        && s.backoff_ms == o.backoff_ms && (if o.state == SessionState::Connected {
                        actions@ =~= seq![SessionAction::CloseAndDrain, SessionAction::StopTask]
                    } else {
                        actions@ =~= seq![SessionAction::StopTask]
                    }),
                }
            }),
    {
        let mut actions: Vec<SessionAction> = Vec::new();
        match event {
            SessionEvent::BackoffElapsed => {
                if self.state == SessionState::Disconnected {
                    self.state = SessionState::Connecting;
                    actions.push(SessionAction::OpenSocket);
                }
            },
            SessionEvent::ConnectSucceeded => {
                if self.state == SessionState::Connecting {
                    self.state = SessionState::Connected;
                    self.backoff_ms = BACKOFF_START_MS;
                }
            },
            SessionEvent::ConnectFailed => {
                if self.state == SessionState::Connecting {
                    self.state = SessionState::Disconnected;
                    actions.push(SessionAction::SleepBackoff(self.backoff_ms));
                    self.backoff_ms = next_backoff(self.backoff_ms);
                }
            },
            SessionEvent::FrameArrived(p) => {
                if self.state == SessionState::Connected {
                    let is_heartbeat = match &p {
                        Packet::Heartbeat(_) => true,
                        _ => false,
                    };
                    let echo = p.duplicate();
                    actions.push(SessionAction::BroadcastInbound(p));
                    if is_heartbeat && self.heartbeats {
                        actions.push(SessionAction::EchoHeartbeat(echo));
                    }
                }
            },
            SessionEvent::ReadTimedOut | SessionEvent::StreamInvalid
                | SessionEvent::StreamClosed => {
                if self.state == SessionState::Connected {
                    self.state = SessionState::Draining;
                    actions.push(SessionAction::CloseAndDrain);
                }
            },
            SessionEvent::DrainComplete => {
                if self.state == SessionState::Draining {
                    self.state = SessionState::Disconnected;
                    actions.push(SessionAction::SleepBackoff(self.backoff_ms));
                }
            },
            SessionEvent::ShutdownRequested => {
                if self.state == SessionState::Connected {
                    actions.push(SessionAction::CloseAndDrain);
                }
                self.state = SessionState::Disconnected;
                actions.push(SessionAction::StopTask);
            },
        }
        actions
    }
}

} // verus!
