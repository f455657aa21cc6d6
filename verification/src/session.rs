use vstd::prelude::*;
use crate::events::FinishReason;
use crate::events::NotificationEvent;
use crate::events::OutboundMessage;
use crate::events::message_of;
use crate::events::message_of_spec;

verus! {

/// The out-of-band requests the dispatch side may put on the control
/// channel. The control channel outranks the event queue: it is drained
/// first on every iteration, so shutdown is observed promptly even under
/// sustained event load.
#[derive(Clone, Copy, PartialEq, Eq, Structural, Debug)]
pub enum ControlRequests {
    Shutdown,
}

/// The session's lifecycle state. Transitions are monotonic: Pending, then
/// Running, then Stopped, and Stopped is terminal.
#[derive(Clone, Copy, PartialEq, Eq, Structural, Debug)]
pub enum SessionState {
    Pending,
    Running,
    Stopped,
}

/// How far along the monotonic lifecycle a state is.
pub open spec fn state_rank(s: SessionState) -> int {
    match s {
        SessionState::Pending => 0int,
        SessionState::Running => 1int,
        SessionState::Stopped => 2int,
    }
}

/// What one session iteration asks its surroundings to do. Performing the
/// action — connecting, or pushing bytes at the collector — is the
/// unverified shell's part; the decision is made here.
#[derive(Clone, Debug)]
pub enum SessionAction {
    /// Try to establish the transport connection, and report the outcome
    /// through `connect_result`.
    Connect,
    /// Send this message. For a session-start message the acknowledgment
    /// is reported back through `handshake_result`; for every other
    /// message delivery is best-effort and a failure is only logged.
    Send(OutboundMessage),
    /// Nothing to do this iteration.
    Idle,
    /// The session is stopped; leave the loop and release the worker.
    Halt,
}

/// The mathematical state of the session pipeline: the lifecycle state, the
/// transport, the process metadata captured at initialization, both
/// channels, and the ordered trace of every message handed to the
/// transport so far.
pub struct SessionModel {
    pub state: SessionState,
    pub connected: bool,
    pub pid: u32,
    pub cmd: String,
    pub path: String,
    pub events: Seq<NotificationEvent>,
    pub producer_alive: bool,
    pub shutdown_pending: bool,
    pub log: Seq<OutboundMessage>,
    /// Every event the producer side ever queued, in push order. The queue
    /// always holds a suffix of it: what was not yet delivered.
    pub pushed: Seq<NotificationEvent>,
}

/// How many session-finish messages the trace holds.
pub open spec fn finish_count(log: Seq<OutboundMessage>) -> int
    decreases log.len(),
{
    if log.len() == 0 {
        0int
    } else {
        finish_count(log.drop_last()) + if log.last() is SessionFinish {
            1int
        } else {
            0int
        }
    }
}

/// A session-start message stands somewhere in the trace.
pub open spec fn has_start(log: Seq<OutboundMessage>) -> bool {
    exists|j: int| 0 <= j < log.len() && log[j] is SessionStart
}

/// Every event message in the trace comes after some session-start
/// message: no event is ever delivered before the handshake.
pub open spec fn events_follow_start(log: Seq<OutboundMessage>) -> bool {
    forall|i: int|
        0 <= i < log.len() && (#[trigger] log[i]).is_event_message() ==> exists|j: int|
            0 <= j < i && log[j] is SessionStart
}

/// The event messages of the trace, in trace order, with the session's own
/// lifecycle messages left out.
pub open spec fn event_messages(log: Seq<OutboundMessage>) -> Seq<OutboundMessage>
    decreases log.len(),
{
    if log.len() == 0 {
        Seq::empty()
    } else if log.last().is_event_message() {
        event_messages(log.drop_last()).push(log.last())
    } else {
        event_messages(log.drop_last())
    }
}

/// The protocol messages that report the given events for process `pid`,
/// in the same order.
pub open spec fn messages_of(pid: u32, evs: Seq<NotificationEvent>) -> Seq<OutboundMessage> {
    evs.map_values(|ev: NotificationEvent| message_of_spec(pid, ev))
}

/// How many of the pushed events have left the queue.
pub open spec fn delivered_count(s: SessionModel) -> int {
    s.pushed.len() - s.events.len()
}

/// The single-consumer queue discipline: the queue is the undelivered
/// suffix of everything ever pushed, and the event messages handed to the
/// transport so far are exactly the messages of the delivered prefix, in
/// push order.
pub open spec fn fifo_wf(s: SessionModel) -> bool {
    &&& s.events.len() <= s.pushed.len()
    &&& s.events == s.pushed.subrange(delivered_count(s), s.pushed.len() as int)
    &&& event_messages(s.log) == messages_of(s.pid, s.pushed.take(delivered_count(s)))
}

/// The session invariant: at most one finish message is ever sent, and
/// only on the way to Stopped; a running session is connected and has
/// completed its handshake; no event message precedes the start; and
/// delivery follows the queue discipline.
pub open spec fn session_wf(s: SessionModel) -> bool {
    &&& finish_count(s.log) <= 1
    &&& (finish_count(s.log) == 1 ==> s.state is Stopped)
    &&& (s.state is Running ==> s.connected && has_start(s.log))
    &&& events_follow_start(s.log)
    &&& fifo_wf(s)
}

/// Appending a lifecycle message leaves the delivered events alone;
/// appending an event message appends it to them.
pub proof fn lemma_event_messages_push(log: Seq<OutboundMessage>, m: OutboundMessage)
    ensures
        event_messages(log.push(m)) == if m.is_event_message() {
            event_messages(log).push(m)
        } else {
            event_messages(log)
        },
{
    assert(log.push(m).drop_last() =~= log);
}

/// One more reported event extends the reported messages by its message.
pub proof fn lemma_messages_of_push(pid: u32, evs: Seq<NotificationEvent>, ev: NotificationEvent)
    ensures
        messages_of(pid, evs.push(ev)) == messages_of(pid, evs).push(message_of_spec(pid, ev)),
{
    assert(messages_of(pid, evs.push(ev)) =~= messages_of(pid, evs).push(
        message_of_spec(pid, ev),
    ));
}

/// Draining the control channel, which every iteration does first. A
/// shutdown request on a stopped session is consumed and does nothing; on
/// a live one it sends the locally-requested finish — when a transport
/// exists to send it on — and stops the session.
pub open spec fn control_model(s: SessionModel) -> SessionModel {
    if !s.shutdown_pending {
        s
    } else if s.state is Stopped {
        SessionModel { shutdown_pending: false, ..s }
    } else if s.connected {
        SessionModel {
            shutdown_pending: false,
            state: SessionState::Stopped,
            log: s.log.push(
                OutboundMessage::SessionFinish { pid: s.pid, reason: FinishReason::LocalRequest },
            ),
            ..s
        }
    } else {
        SessionModel { shutdown_pending: false, state: SessionState::Stopped, ..s }
    }
}

/// Draining the control channel produces a send of its own exactly when a
/// live, connected session is asked to shut down: the locally-requested
/// finish message.
pub open spec fn control_emits(s: SessionModel) -> bool {
    s.shutdown_pending && !(s.state is Stopped) && s.connected
}

/// The state machine's own part of one iteration, after the control
/// channel was drained. Pending connects, then handshakes; Running drains
/// at most one event, or finishes when the producers are gone; Stopped
/// halts.
pub open spec fn machine_model(s: SessionModel) -> (SessionModel, SessionAction) {
    match s.state {
        SessionState::Pending => if !s.connected {
            (s, SessionAction::Connect)
        } else {
            let m = OutboundMessage::SessionStart { pid: s.pid, cmd: s.cmd, path: s.path };
            (SessionModel { log: s.log.push(m), ..s }, SessionAction::Send(m))
        },
        SessionState::Running => if s.events.len() > 0 {
            let m = message_of_spec(s.pid, s.events[0]);
            (
                SessionModel { events: s.events.remove(0), log: s.log.push(m), ..s },
                SessionAction::Send(m),
            )
        } else if !s.producer_alive {
            let m = OutboundMessage::SessionFinish {
                pid: s.pid,
                reason: FinishReason::ProducerLost,
            };
            (
                SessionModel { state: SessionState::Stopped, log: s.log.push(m), ..s },
                SessionAction::Send(m),
            )
        } else {
            (s, SessionAction::Idle)
        },
        SessionState::Stopped => (s, SessionAction::Halt),
    }
}

/// One whole iteration of the session loop: control first — and when the
/// control channel demanded the finish message, sending it is this
/// iteration's action — then the state machine.
pub open spec fn step_model(s: SessionModel) -> (SessionModel, SessionAction) {
    if control_emits(s) {
        (
            control_model(s),
            SessionAction::Send(
                OutboundMessage::SessionFinish { pid: s.pid, reason: FinishReason::LocalRequest },
            ),
        )
    } else {
        machine_model(control_model(s))
    }
}

/// One iteration never backtracks along the lifecycle.
pub proof fn lemma_step_monotonic(s: SessionModel)
    ensures
        state_rank(step_model(s).0.state) >= state_rank(s.state),
{
}

/// One iteration keeps the session invariant.
pub proof fn lemma_step_preserves_wf(s: SessionModel)
    requires
        session_wf(s),
    ensures
        session_wf(step_model(s).0),
{
    let c = control_model(s);
    assert(session_wf(c)) by {
        if s.shutdown_pending && !(s.state is Stopped) && s.connected {
            let m = OutboundMessage::SessionFinish {
                pid: s.pid,
                reason: FinishReason::LocalRequest,
            };
            assert(c.log.drop_last() =~= s.log);
            assert(finish_count(c.log) == finish_count(s.log) + 1);
            assert(forall|i: int|
                0 <= i < c.log.len() && (#[trigger] c.log[i]).is_event_message() ==> 0 <= i
                    < s.log.len() && s.log[i].is_event_message());
            lemma_event_messages_push(s.log, m);
        }
    }
    if !control_emits(s) {
        let (n, _) = machine_model(c);
        if c.state is Pending && c.connected {
            let m = OutboundMessage::SessionStart { pid: c.pid, cmd: c.cmd, path: c.path };
            assert(n.log.drop_last() =~= c.log);
            assert(forall|i: int|
                0 <= i < n.log.len() && (#[trigger] n.log[i]).is_event_message() ==> 0 <= i
                    < c.log.len() && c.log[i].is_event_message());
            lemma_event_messages_push(c.log, m);
        } else if c.state is Running && c.events.len() > 0 {
            let d = delivered_count(c);
            let m = message_of_spec(c.pid, c.events[0]);
            assert(c.events[0] == c.pushed[d]);
            assert(m.is_event_message());
            assert(n.log.drop_last() =~= c.log);
            let w = choose|j: int| 0 <= j < c.log.len() && c.log[j] is SessionStart;
            assert forall|i: int|
                0 <= i < n.log.len() && (#[trigger] n.log[i]).is_event_message() implies exists|
                j: int,
            | 0 <= j < i && n.log[j] is SessionStart by {
                if i < c.log.len() {
                    assert(c.log[i].is_event_message());
                } else {
                    assert(0 <= w < i && n.log[w] is SessionStart);
                }
            }
            lemma_event_messages_push(c.log, m);
            assert(c.pushed.take(d + 1) =~= c.pushed.take(d).push(c.pushed[d]));
            lemma_messages_of_push(c.pid, c.pushed.take(d), c.pushed[d]);
            assert(n.events =~= c.pushed.subrange(d + 1, c.pushed.len() as int));
        } else if c.state is Running && !c.producer_alive {
            let m = OutboundMessage::SessionFinish {
                pid: c.pid,
                reason: FinishReason::ProducerLost,
            };
            assert(n.log.drop_last() =~= c.log);
            assert(forall|i: int|
                0 <= i < n.log.len() && (#[trigger] n.log[i]).is_event_message() ==> 0 <= i
                    < c.log.len() && c.log[i].is_event_message());
            lemma_event_messages_push(c.log, m);
        }
    }
}

/// The ordering guarantee of the telemetry queue, read off the invariant:
/// at every reachable state the event messages handed to the transport are
/// exactly the messages of the delivered prefix of the pushed events, in
/// push order, and the queue holds the undelivered suffix.
pub proof fn lemma_fifo_delivery(s: SessionModel)
    requires
        session_wf(s),
    ensures
        event_messages(s.log) == messages_of(s.pid, s.pushed.take(delivered_count(s))),
        s.events == s.pushed.subrange(delivered_count(s), s.pushed.len() as int),
{
}

/// While the session is Pending no iteration delivers an event message:
/// whatever was queued waits, at least, for the handshake.
pub proof fn lemma_no_event_delivery_while_pending(s: SessionModel)
    requires
        session_wf(s),
        s.state is Pending,
    ensures
        !(step_model(s).1 matches SessionAction::Send(m) && m.is_event_message()),
        step_model(s).0.events == s.events,
{
}

/// A running iteration with a quiet control channel delivers exactly the
/// front of the event queue, so events reach the transport in push order.
pub proof fn lemma_running_delivers_front(s: SessionModel)
    requires
        session_wf(s),
        s.state is Running,
        !s.shutdown_pending,
        s.events.len() > 0,
    ensures
        step_model(s).1 == SessionAction::Send(message_of_spec(s.pid, s.events[0])),
        step_model(s).0.events == s.events.remove(0),
        step_model(s).0.log == s.log.push(message_of_spec(s.pid, s.events[0])),
{
}

/// The scripted start-up: with an event queued while still Pending, the
/// connected session first sends the session-start handshake, leaving the
/// queue untouched; once the acknowledgment is positive, the very next
/// iteration delivers exactly that first event — and the trace never shows
/// an event message before the start.
pub proof fn lemma_first_event_follows_start(s: SessionModel)
    requires
        session_wf(s),
        s.state is Pending,
        s.connected,
        !s.shutdown_pending,
        s.events.len() > 0,
    ensures
        ({
            let (s1, a1) = step_model(s);
            let s2 = SessionModel { state: SessionState::Running, ..s1 };
            let (s3, a3) = step_model(s2);
            &&& a1 matches SessionAction::Send(m1) && m1 is SessionStart
            &&& s1.events == s.events
            &&& a3 == SessionAction::Send(message_of_spec(s.pid, s.events[0]))
            &&& events_follow_start(s3.log)
        }),
{
    lemma_step_preserves_wf(s);
    let (s1, a1) = step_model(s);
    assert(has_start(s1.log)) by {
        let k = s1.log.len() - 1;
        assert(0 <= k < s1.log.len() && s1.log[k] is SessionStart);
    }
    let s2 = SessionModel { state: SessionState::Running, ..s1 };
    assert(session_wf(s2));
    lemma_step_preserves_wf(s2);
}

/// Once the producers are gone and the queue has drained, the session
/// sends the producer-lost finish and stops.
pub proof fn lemma_producer_loss_finishes(s: SessionModel)
    requires
        session_wf(s),
        s.state is Running,
        !s.shutdown_pending,
        s.events.len() == 0,
        !s.producer_alive,
    ensures
        step_model(s).0.state is Stopped,
        step_model(s).1 == SessionAction::Send(
            (OutboundMessage::SessionFinish { pid: s.pid, reason: FinishReason::ProducerLost }),
        ),
        step_model(s).0.log == s.log.push(
            (OutboundMessage::SessionFinish { pid: s.pid, reason: FinishReason::ProducerLost }),
        ),
{
}

/// A second shutdown signal is a no-op: on a stopped session an iteration
/// consumes the signal, sends nothing, and halts; and the invariant keeps
/// the whole trace at no more than one finish message.
pub proof fn lemma_duplicate_shutdown_is_noop(s: SessionModel)
    requires
        session_wf(s),
        s.state is Stopped,
    ensures
        step_model(s).0.log == s.log,
        step_model(s).0.state is Stopped,
        step_model(s).1 is Halt,
        finish_count(s.log) <= 1,
{
}

/// The session pipeline: the consumer-side value the dedicated worker
/// owns, fed by the event queue and the control channel the dispatch side
/// writes. The event queue is unbounded by choice: the producing side must
/// never block or drop, and memory growth while the session is still
/// Pending is accepted.
pub struct Session {
    state: SessionState,
    connected: bool,
    pid: u32,
    cmd: String,
    path: String,
    events: Vec<NotificationEvent>,
    producer_alive: bool,
    shutdown_pending: bool,
    log: Ghost<Seq<OutboundMessage>>,
    pushed: Ghost<Seq<NotificationEvent>>,
}

impl View for Session {
    type V = SessionModel;

    closed spec fn view(&self) -> SessionModel {
        SessionModel {
            state: self.state,
            connected: self.connected,
            pid: self.pid,
            cmd: self.cmd,
            path: self.path,
            events: self.events@,
            producer_alive: self.producer_alive,
            shutdown_pending: self.shutdown_pending,
            log: self.log@,
            pushed: self.pushed@,
        }
    }
}

impl Session {
    /// Creates the pipeline for one monitored process run, capturing the
    /// process metadata once.
    pub fn new(pid: u32, cmd: String, path: String) -> (s: Session)
        ensures
            session_wf(s@),
            s@.state is Pending,
            !s@.connected,
            s@.pid == pid,
            s@.cmd == cmd,
            s@.path == path,
            s@.events.len() == 0,
            s@.producer_alive,
            !s@.shutdown_pending,
            s@.log.len() == 0,
    {
        let s = Session {
            state: SessionState::Pending,
            connected: false,
            pid,
            cmd,
            path,
            events: Vec::new(),
            producer_alive: true,
            shutdown_pending: false,
            log: Ghost(Seq::empty()),
            pushed: Ghost(Seq::empty()),
        };
        proof {
            assert(s@.events =~= s@.pushed.subrange(0, 0));
            assert(event_messages(s@.log) =~= messages_of(pid, s@.pushed.take(0)));
        }
        s
    }

    /// Reads the lifecycle state.
    pub fn current_state(&self) -> (st: SessionState)
        ensures
            st == self@.state,
    {
        self.state
    }

    /// How many events wait in the queue.
    pub fn queued_events(&self) -> (n: usize)
        ensures
            n == self@.events.len(),
    {
        self.events.len()
    }

    /// The producer side queues one event; it never blocks and never
    /// reorders.
    pub fn push_event(&mut self, ev: NotificationEvent)
        ensures
            final(self)@ == (SessionModel {
                events: old(self)@.events.push(ev),
                pushed: old(self)@.pushed.push(ev),
                ..old(self)@
            }),
            session_wf(old(self)@) ==> session_wf(final(self)@),
    {
        proof {
            let o = self@;
            if session_wf(o) {
                let d = delivered_count(o);
                assert(o.events.push(ev) =~= o.pushed.push(ev).subrange(
                    d,
                    o.pushed.len() + 1 as int,
                ));
                assert(o.pushed.push(ev).take(d) =~= o.pushed.take(d));
            }
        }
        self.events.push(ev);
        self.pushed = Ghost(self.pushed@.push(ev));
    }

    /// The producer side puts a request on the control channel. Only
    /// shutdown exists; signalling twice is allowed.
    pub fn signal_control(&mut self, req: ControlRequests)
        ensures
            final(self)@ == (SessionModel { shutdown_pending: true, ..old(self)@ }),
    {
        match req {
            ControlRequests::Shutdown => {
                self.shutdown_pending = true;
            },
        }
    }

    /// The producer side is gone: no further event will ever arrive.
    pub fn drop_producer(&mut self)
        ensures
            final(self)@ == (SessionModel { producer_alive: false, ..old(self)@ }),
    {
        self.producer_alive = false;
    }

    /// The shell reports how the connection attempt went.
    pub fn connect_result(&mut self, ok: bool)
        requires
            old(self)@.state is Pending,
            !old(self)@.connected,
        ensures
            final(self)@ == (SessionModel { connected: ok, ..old(self)@ }),
    {
        self.connected = ok;
    }

    /// The shell reports the handshake acknowledgment: a positive one
    /// starts the session; a negative one, or a transport failure
    /// (`None`), stops it for good without draining anything.
    pub fn handshake_result(&mut self, reply: Option<bool>)
        requires
            session_wf(old(self)@),
            old(self)@.state is Pending,
            old(self)@.connected,
            has_start(old(self)@.log),
        ensures
            session_wf(final(self)@),
            reply == Some(true) ==> final(self)@ == (SessionModel {
                state: SessionState::Running,
                ..old(self)@
            }),
            reply != Some(true) ==> final(self)@ == (SessionModel {
                state: SessionState::Stopped,
                ..old(self)@
            }),
    {
        match reply {
            Some(true) => {
                self.state = SessionState::Running;
            },
            _ => {
                self.state = SessionState::Stopped;
            },
        }
    }

    /// One iteration of the session loop: drain the control channel first,
    /// then let the state machine act. The returned action is the one
    /// decision the shell must carry out before the next iteration.
    pub fn step(&mut self) -> (a: SessionAction)
        requires
            session_wf(old(self)@),
        ensures
            session_wf(final(self)@),
            final(self)@ == step_model(old(self)@).0,
            a == step_model(old(self)@).1,
    {
        proof {
            lemma_step_preserves_wf(old(self)@);
        }
        if self.shutdown_pending {
            self.shutdown_pending = false;
            match self.state {
                SessionState::Stopped => {},
                _ => {
                    self.state = SessionState::Stopped;
                    if self.connected {
                        let m = OutboundMessage::SessionFinish {
                            pid: self.pid,
                            reason: FinishReason::LocalRequest,
                        };
                        self.log = Ghost(self.log@.push(m));
                        return SessionAction::Send(m);
                    }
                },
            }
        }
        match self.state {
            SessionState::Pending => {
                if !self.connected {
                    SessionAction::Connect
                } else {
                    let m = OutboundMessage::SessionStart {
                        pid: self.pid,
                        cmd: self.cmd.clone(),
                        path: self.path.clone(),
                    };
                    self.log = Ghost(self.log@.push(m));
                    SessionAction::Send(m)
                }
            },
            SessionState::Running => {
                if self.events.len() > 0 {
                    let ev = self.events.remove(0);
                    let m = message_of(self.pid, ev);
                    self.log = Ghost(self.log@.push(m));
                    SessionAction::Send(m)
                } else if !self.producer_alive {
                    let m = OutboundMessage::SessionFinish {
                        pid: self.pid,
                        reason: FinishReason::ProducerLost,
                    };
                    self.log = Ghost(self.log@.push(m));
                    self.state = SessionState::Stopped;
                    SessionAction::Send(m)
                } else {
                    SessionAction::Idle
                }
            },
            SessionState::Stopped => SessionAction::Halt,
        }
    }
}

} // verus!
