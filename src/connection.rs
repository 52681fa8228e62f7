//! The per-connection state machine of the daemon.
//!
//! A connection waits for a frame, answers it, and while a command runs it
//! forwards the command's output and finally its exit code. The task that
//! owns the socket feeds each event to `Connection::step` and carries out the
//! returned `Reaction`: it writes the replies in order, starts the command,
//! raises the daemon-wide shutdown flag, or closes the stream.

use vstd::prelude::*;
use crate::protocol::{ClientMessage, DaemonMessage, Job, Reply, Request};
use crate::text::opt_text;
use crate::status::{exit_code_from_wait, spec_wait_exit_code};

verus! {

/// Where a connection stands.
#[derive(Clone, Copy, Debug, PartialEq, Eq, Structural)]
pub enum Phase {
    /// Waiting for the next request frame.
    AwaitingMessage,
    /// A command runs; its output is being forwarded.
    Executing,
    /// Nothing more is read or written.
    Closed,
}

/// A command the connection asks the handler to start.
#[derive(Clone, Debug)]
pub struct ExecRequest {
    pub program: String,
    pub args: Vec<String>,
    pub env: Vec<String>,
    pub working_dir: Option<String>,
}

impl View for ExecRequest {
    type V = Job;

    open spec fn view(&self) -> Job {
        Job {
            program: self.program@,
            args: self.args.deep_view(),
            env: self.env.deep_view(),
            working_dir: opt_text(self.working_dir),
        }
    }
}

/// A frame as it came off the wire: a decoded request, or the decoder's
/// complaint about it.
#[derive(Clone, Debug)]
pub enum Incoming {
    Message(ClientMessage),
    Malformed(String),
}

pub enum Frame {
    Message(Request),
    Malformed(Seq<char>),
}

impl View for Incoming {
    type V = Frame;

    open spec fn view(&self) -> Frame {
        match self {
            Incoming::Message(m) => Frame::Message(m@),
            Incoming::Malformed(e) => Frame::Malformed(e@),
        }
    }
}

/// What happened on a connection.
#[derive(Clone, Debug)]
pub enum ConnEvent {
    /// A frame arrived. `shutdown_requested` is the daemon-wide flag and
    /// `parent_alive` whether the monitored parent still runs (true when no
    /// parent is monitored), both read when the frame arrived.
    Frame { incoming: Incoming, shutdown_requested: bool, parent_alive: bool },
    /// The running command wrote a line.
    OutputLine(String),
    /// The running command ended; `reaped` says whether waiting for it
    /// succeeded and `status` is the status it stored.
    ChildExited { reaped: bool, status: i32 },
    /// The pseudo-terminal for the command could not be set up.
    SpawnFailed(String),
    /// The client closed its side.
    EndOfStream,
}

pub enum Event {
    Frame { incoming: Frame, shutdown_requested: bool, parent_alive: bool },
    OutputLine(Seq<char>),
    ChildExited { reaped: bool, status: i32 },
    SpawnFailed(Seq<char>),
    EndOfStream,
}

impl View for ConnEvent {
    type V = Event;

    open spec fn view(&self) -> Event {
        match self {
            ConnEvent::Frame { incoming, shutdown_requested, parent_alive } => Event::Frame {
                incoming: incoming@,
                shutdown_requested: *shutdown_requested,
                parent_alive: *parent_alive,
            },
            ConnEvent::OutputLine(t) => Event::OutputLine(t@),
            ConnEvent::ChildExited { reaped, status } => Event::ChildExited {
                reaped: *reaped,
                status: *status,
            },
            ConnEvent::SpawnFailed(t) => Event::SpawnFailed(t@),
            ConnEvent::EndOfStream => Event::EndOfStream,
        }
    }
}

/// What the handler must do after an event.
#[derive(Debug)]
pub struct Reaction {
    /// Replies to write, in this order.
    pub replies: Vec<DaemonMessage>,
    /// A command to start.
    pub run: Option<ExecRequest>,
    /// Raise the daemon-wide shutdown flag.
    pub request_shutdown: bool,
    /// Close the connection.
    pub close: bool,
}

pub struct Outcome {
    pub replies: Seq<Reply>,
    pub run: Option<Job>,
    pub request_shutdown: bool,
    pub close: bool,
}

pub open spec fn opt_job(o: Option<ExecRequest>) -> Option<Job> {
    match o {
        Some(r) => Some(r@),
        None => None,
    }
}

impl View for Reaction {
    type V = Outcome;

    open spec fn view(&self) -> Outcome {
        Outcome {
            replies: self.replies@.map_values(|m: DaemonMessage| m@),
            run: opt_job(self.run),
            request_shutdown: self.request_shutdown,
            close: self.close,
        }
    }
}

pub open spec fn parent_gone_text() -> Seq<char> {
    "Parent process is no longer running"@
}

pub open spec fn parse_error_text(e: Seq<char>) -> Seq<char> {
    "Failed to parse message: "@ + e
}

pub open spec fn spawn_error_text(e: Seq<char>) -> Seq<char> {
    "Failed to create PTY: "@ + e
}

pub open spec fn outcome(replies: Seq<Reply>, run: Option<Job>, request_shutdown: bool, close: bool) -> Outcome {
    Outcome { replies, run, request_shutdown, close }
}

pub open spec fn quiet() -> Outcome {
    outcome(seq![], None, false, false)
}

/// One step of the connection: the next phase and what to do.
pub open spec fn spec_step(p: Phase, e: Event) -> (Phase, Outcome) {
    match p {
        Phase::AwaitingMessage => match e {
            Event::Frame { incoming, shutdown_requested, parent_alive } => {
                if shutdown_requested {
                    (Phase::Closed, outcome(seq![], None, false, true))
                } else if !parent_alive {
                    (Phase::Closed, outcome(seq![Reply::ErrorMessage(parent_gone_text())], None, true, true))
                } else {
                    match incoming {
                        Frame::Malformed(t) => (
                            Phase::AwaitingMessage,
                            outcome(seq![Reply::ErrorMessage(parse_error_text(t))], None, false, false),
                        ),
                        Frame::Message(Request::Ping) => (
                            Phase::AwaitingMessage,
                            outcome(seq![Reply::Pong], None, false, false),
                        ),
                        Frame::Message(Request::Shutdown) => (
                            Phase::Closed,
                            outcome(seq![Reply::ShutdownAck], None, true, true),
                        ),
                        Frame::Message(Request::Execute(job)) => (
                            Phase::Executing,
                            outcome(seq![], Some(job), false, false),
                        ),
                    }
                }
            },
            Event::EndOfStream => (Phase::Closed, outcome(seq![], None, false, true)),
            _ => (Phase::AwaitingMessage, quiet()),
        },
        Phase::Executing => match e {
            Event::OutputLine(t) => (Phase::Executing, outcome(seq![Reply::Output(t)], None, false, false)),
            Event::ChildExited { reaped, status } => (
                Phase::AwaitingMessage,
                outcome(seq![Reply::Completed(spec_wait_exit_code(reaped, status) as i32)], None, false, false),
            ),
            Event::SpawnFailed(t) => (
                Phase::AwaitingMessage,
                outcome(seq![Reply::ErrorMessage(spawn_error_text(t))], None, false, false),
            ),
            _ => (Phase::Executing, quiet()),
        },
        Phase::Closed => (Phase::Closed, quiet()),
    }
}

/// Phase reached and replies written after a sequence of events.
pub open spec fn spec_run(p: Phase, evs: Seq<Event>) -> (Phase, Seq<Reply>)
    decreases evs.len(),
{
    if evs.len() == 0 {
        (p, seq![])
    } else {
        let (q, o) = spec_step(p, evs[0]);
        let rest = spec_run(q, evs.drop_first());
        (rest.0, o.replies + rest.1)
    }
}

/// A frame that arrives while the daemon runs normally: no shutdown was
/// requested and the monitored parent, if any, is alive.
pub open spec fn live_frame(f: Frame) -> Event {
    Event::Frame { incoming: f, shutdown_requested: false, parent_alive: true }
}

pub open spec fn output_events(lines: Seq<Seq<char>>) -> Seq<Event> {
    lines.map_values(|t: Seq<char>| Event::OutputLine(t))
}

pub open spec fn output_replies(lines: Seq<Seq<char>>) -> Seq<Reply> {
    lines.map_values(|t: Seq<char>| Reply::Output(t))
}

/// Running two sequences one after the other.
pub proof fn lemma_run_append(p: Phase, a: Seq<Event>, b: Seq<Event>)
    ensures
        spec_run(p, a + b) == (
            spec_run(spec_run(p, a).0, b).0,
            spec_run(p, a).1 + spec_run(spec_run(p, a).0, b).1,
        ),
    decreases a.len(),
{
    if a.len() == 0 {
        assert(a + b =~= b);
        assert(spec_run(p, a).1 + spec_run(p, b).1 =~= spec_run(p, b).1);
    } else {
        let q = spec_step(p, a[0]).0;
        assert((a + b).drop_first() =~= a.drop_first() + b);
        assert((a + b)[0] == a[0]);
        lemma_run_append(q, a.drop_first(), b);
        let o = spec_step(p, a[0]).1.replies;
        let x = spec_run(q, a.drop_first()).1;
        let y = spec_run(spec_run(q, a.drop_first()).0, b).1;
        assert(o + (x + y) =~= (o + x) + y);
    }
}

/// Running a single event is one step.
pub proof fn lemma_run_single(p: Phase, e: Event)
    ensures
        spec_run(p, seq![e]) == (spec_step(p, e).0, spec_step(p, e).1.replies),
{
    assert(seq![e].drop_first() =~= Seq::<Event>::empty());
    assert(spec_run(spec_step(p, e).0, Seq::<Event>::empty()) == (spec_step(p, e).0, Seq::<Reply>::empty()));
    assert(spec_step(p, e).1.replies + Seq::<Reply>::empty() =~= spec_step(p, e).1.replies);
}

/// A closed connection writes nothing more.
pub proof fn lemma_closed_is_silent(evs: Seq<Event>)
    ensures
        spec_run(Phase::Closed, evs) == (Phase::Closed, Seq::<Reply>::empty()),
    decreases evs.len(),
{
    if evs.len() > 0 {
        lemma_closed_is_silent(evs.drop_first());
        assert(seq![] + Seq::<Reply>::empty() =~= Seq::<Reply>::empty());
    }
}

proof fn lemma_output_lines(lines: Seq<Seq<char>>)
    ensures
        spec_run(Phase::Executing, output_events(lines)) == (Phase::Executing, output_replies(lines)),
    decreases lines.len(),
{
    if lines.len() == 0 {
        assert(output_events(lines) =~= seq![]);
        assert(output_replies(lines) =~= seq![]);
    } else {
        let rest = lines.drop_first();
        lemma_output_lines(rest);
        assert(output_events(lines).drop_first() =~= output_events(rest));
        assert(output_replies(lines) =~= seq![Reply::Output(lines[0])] + output_replies(rest));
    }
}

/// An `Execute` exchange on a connection writes exactly the lines of its own
/// command, in the order they were produced, followed by one `Completed`
/// carrying the command's exit code; the connection then waits for the next
/// request.
pub proof fn lemma_execute_exchange(job: Job, lines: Seq<Seq<char>>, reaped: bool, status: i32)
    ensures
        spec_run(
            Phase::AwaitingMessage,
            seq![live_frame(Frame::Message(Request::Execute(job)))] + output_events(lines)
                + seq![Event::ChildExited { reaped, status }],
        ) == (
            Phase::AwaitingMessage,
            output_replies(lines).push(Reply::Completed(spec_wait_exit_code(reaped, status) as i32)),
        ),
{
    let start = seq![live_frame(Frame::Message(Request::Execute(job)))];
    let exit = seq![Event::ChildExited { reaped, status }];
    lemma_output_lines(lines);
    lemma_run_append(Phase::AwaitingMessage, start, output_events(lines));
    lemma_run_append(Phase::AwaitingMessage, start + output_events(lines), exit);
    lemma_run_single(Phase::AwaitingMessage, live_frame(Frame::Message(Request::Execute(job))));
    lemma_run_single(Phase::Executing, Event::ChildExited { reaped, status });
    let done = seq![Reply::Completed(spec_wait_exit_code(reaped, status) as i32)];
    assert(Seq::<Reply>::empty() + output_replies(lines) =~= output_replies(lines));
    assert(output_replies(lines) + done =~= output_replies(lines).push(
        Reply::Completed(spec_wait_exit_code(reaped, status) as i32),
    ));
}

/// A malformed frame is answered with one `ErrorMessage` and leaves the
/// connection exactly as it was: whatever follows is handled as if the frame
/// had never arrived.
pub proof fn lemma_malformed_frame_keeps_connection(error: Seq<char>, later: Seq<Event>)
    ensures
        spec_run(Phase::AwaitingMessage, seq![live_frame(Frame::Malformed(error))] + later) == (
            spec_run(Phase::AwaitingMessage, later).0,
            seq![Reply::ErrorMessage(parse_error_text(error))] + spec_run(Phase::AwaitingMessage, later).1,
        ),
{
    let first = seq![live_frame(Frame::Malformed(error))];
    lemma_run_append(Phase::AwaitingMessage, first, later);
    lemma_run_single(Phase::AwaitingMessage, live_frame(Frame::Malformed(error)));
    assert(spec_run(Phase::AwaitingMessage, first).1 =~= seq![Reply::ErrorMessage(parse_error_text(error))]);
}

/// Whatever came before, a `Ping` on a connection that waits for a request
/// is answered with `Pong` and nothing else, and the connection keeps
/// waiting.
pub proof fn lemma_ping_yields_pong(history: Seq<Event>)
    requires
        spec_run(Phase::AwaitingMessage, history).0 == Phase::AwaitingMessage,
    ensures
        spec_run(Phase::AwaitingMessage, history.push(live_frame(Frame::Message(Request::Ping)))) == (
            Phase::AwaitingMessage,
            spec_run(Phase::AwaitingMessage, history).1.push(Reply::Pong),
        ),
{
    let ping = seq![live_frame(Frame::Message(Request::Ping))];
    assert(history.push(live_frame(Frame::Message(Request::Ping))) =~= history + ping);
    lemma_run_append(Phase::AwaitingMessage, history, ping);
    lemma_run_single(Phase::AwaitingMessage, live_frame(Frame::Message(Request::Ping)));
    assert(spec_run(Phase::AwaitingMessage, ping).1 =~= seq![Reply::Pong]);
    assert(spec_run(Phase::AwaitingMessage, history).1 + seq![Reply::Pong]
        =~= spec_run(Phase::AwaitingMessage, history).1.push(Reply::Pong));
}

/// Whatever came before, a `Shutdown` on a connection that waits for a
/// request is answered with exactly one `ShutdownAck`, raises the daemon's
/// shutdown flag, and nothing is written afterwards.
pub proof fn lemma_shutdown_acknowledged_once(history: Seq<Event>, later: Seq<Event>)
    requires
        spec_run(Phase::AwaitingMessage, history).0 == Phase::AwaitingMessage,
    ensures
        spec_step(Phase::AwaitingMessage, live_frame(Frame::Message(Request::Shutdown))).1.request_shutdown,
        spec_run(
            Phase::AwaitingMessage,
            history + seq![live_frame(Frame::Message(Request::Shutdown))] + later,
        ) == (Phase::Closed, spec_run(Phase::AwaitingMessage, history).1.push(Reply::ShutdownAck)),
{
    let stop = seq![live_frame(Frame::Message(Request::Shutdown))];
    lemma_run_append(Phase::AwaitingMessage, history, stop);
    lemma_run_append(Phase::AwaitingMessage, history + stop, later);
    lemma_closed_is_silent(later);
    lemma_run_single(Phase::AwaitingMessage, live_frame(Frame::Message(Request::Shutdown)));
    assert(spec_run(Phase::AwaitingMessage, history).1 + seq![Reply::ShutdownAck] + Seq::<Reply>::empty()
        =~= spec_run(Phase::AwaitingMessage, history).1.push(Reply::ShutdownAck));
}

/// The state of one client connection.
pub struct Connection {
    phase: Phase,
}

impl Connection {
    /// A freshly accepted connection, waiting for its first frame.
    pub fn new() -> (r: Connection)
        ensures
            r.spec_phase() == Phase::AwaitingMessage,
    {
        Connection { phase: Phase::AwaitingMessage }
    }

    pub closed spec fn spec_phase(&self) -> Phase {
        self.phase
    }

    /// The current phase.
    pub fn phase(&self) -> (r: Phase)
        ensures
            r == self.spec_phase(),
    {
        self.phase
    }

    /// Feed one event; returns what the handler must do.
    pub fn step(&mut self, event: ConnEvent) -> (r: Reaction)
        ensures
            final(self).spec_phase() == spec_step(old(self).spec_phase(), event@).0,
            r@ == spec_step(old(self).spec_phase(), event@).1,
            r.close == (final(self).spec_phase() == Phase::Closed && old(self).spec_phase() != Phase::Closed),
    {
        let ghost e = event@;
        let (next, r) = match self.phase {
            Phase::AwaitingMessage => match event {
                ConnEvent::Frame { incoming, shutdown_requested, parent_alive } => {
                    if shutdown_requested {
                        (Phase::Closed, reaction(Vec::new(), None, false, true))
                    } else if !parent_alive {
                        let msg = DaemonMessage::ErrorMessage(parent_gone());
                        (Phase::Closed, reaction(vec![msg], None, true, true))
                    } else {
                        match incoming {
                            Incoming::Malformed(t) => {
                                let msg = DaemonMessage::ErrorMessage(parse_error(&t));
                                (Phase::AwaitingMessage, reaction(vec![msg], None, false, false))
                            },
                            Incoming::Message(ClientMessage::Ping) => {
                                (Phase::AwaitingMessage, reaction(vec![DaemonMessage::Pong], None, false, false))
                            },
                            Incoming::Message(ClientMessage::Shutdown) => {
                                (Phase::Closed, reaction(vec![DaemonMessage::ShutdownAck], None, true, true))
                            },
                            Incoming::Message(ClientMessage::Execute { program, args, env, working_dir }) => {
                                let job = ExecRequest { program, args, env, working_dir };
                                (Phase::Executing, reaction(Vec::new(), Some(job), false, false))
                            },
                        }
                    }
                },
                ConnEvent::EndOfStream => (Phase::Closed, reaction(Vec::new(), None, false, true)),
                _ => (Phase::AwaitingMessage, reaction(Vec::new(), None, false, false)),
            },
            Phase::Executing => match event {
                ConnEvent::OutputLine(t) => {
                    (Phase::Executing, reaction(vec![DaemonMessage::Output(t)], None, false, false))
                },
                ConnEvent::ChildExited { reaped, status } => {
                    let exit_code = exit_code_from_wait(reaped, status);
                    (Phase::AwaitingMessage, reaction(vec![DaemonMessage::Completed { exit_code }], None, false, false))
                },
                ConnEvent::SpawnFailed(t) => {
                    let msg = DaemonMessage::ErrorMessage(spawn_error(&t));
                    (Phase::AwaitingMessage, reaction(vec![msg], None, false, false))
                },
                _ => (Phase::Executing, reaction(Vec::new(), None, false, false)),
            },
            Phase::Closed => (Phase::Closed, reaction(Vec::new(), None, false, false)),
        };
        self.phase = next;
        proof {
            let s = spec_step(old(self).spec_phase(), e);
            assert(r@.replies =~= s.1.replies);
        }
        r
    }
}

fn reaction(replies: Vec<DaemonMessage>, run: Option<ExecRequest>, request_shutdown: bool, close: bool) -> (r: Reaction)
    ensures
        r.replies == replies,
        r.run == run,
        r.request_shutdown == request_shutdown,
        r.close == close,
{
    Reaction { replies, run, request_shutdown, close }
}

fn parent_gone() -> (r: String)
    ensures
        r@ == parent_gone_text(),
{
    "Parent process is no longer running".to_owned()
}

fn parse_error(e: &String) -> (r: String)
    ensures
        r@ == parse_error_text(e@),
{
    let mut r = "Failed to parse message: ".to_owned();
    r.append(e.as_str());
    r
}

fn spawn_error(e: &String) -> (r: String)
    ensures
        r@ == spawn_error_text(e@),
{
    let mut r = "Failed to create PTY: ".to_owned();
    r.append(e.as_str());
    r
}

} // verus!
