//! The client's side of an exchange: what to do with each reply, and the
//! command line of the client program.

use vstd::prelude::*;
use crate::connection::{Event, Frame, Phase, live_frame, output_events, output_replies, spec_run, lemma_execute_exchange};
use crate::environment::{split_env_entry, spec_split_env};
use crate::protocol::{DaemonMessage, Job, Reply, Request};
use crate::status::{spec_wait_exit_code, lemma_exited_exit_code, lemma_signal_exit_code};

verus! {

/// Bound on the time to connect to the daemon's socket.
pub const CONNECT_TIMEOUT_MS: u64 = 5000;

/// Exit code reported when the stream ends before `Completed`.
pub const NO_EXIT_CODE: i32 = -1;

/// Failures of an exchange that the daemon reports or causes.
#[derive(Clone, Debug)]
pub enum ClientError {
    /// The daemon answered with `ErrorMessage`.
    Daemon(String),
    /// `Shutdown` was answered with another reply than `ShutdownAck`.
    UnexpectedResponse(DaemonMessage),
    /// The stream closed before `ShutdownAck`.
    ClosedBeforeAck,
}

/// What the client does with one reply of an `Execute` exchange.
#[derive(Debug)]
pub enum ExecuteStep {
    /// Hand the line to the output callback and read on.
    Output(String),
    /// Hand the line to the error callback and read on.
    ErrorOutput(String),
    /// Read on.
    Ignore,
    /// The exchange is over: the command's exit code, or the daemon's error.
    Finished(Result<i32, ClientError>),
}

/// The mathematical value of the end of an `Execute` exchange.
pub enum ExecuteEnd {
    Code(i32),
    Failed(Seq<char>),
    Other,
}

pub enum StepView {
    Output(Seq<char>),
    ErrorOutput(Seq<char>),
    Ignore,
    Finished(ExecuteEnd),
}

impl View for ExecuteStep {
    type V = StepView;

    open spec fn view(&self) -> StepView {
        match self {
            ExecuteStep::Output(t) => StepView::Output(t@),
            ExecuteStep::ErrorOutput(t) => StepView::ErrorOutput(t@),
            ExecuteStep::Ignore => StepView::Ignore,
            ExecuteStep::Finished(Ok(c)) => StepView::Finished(ExecuteEnd::Code(*c)),
            ExecuteStep::Finished(Err(ClientError::Daemon(m))) => StepView::Finished(ExecuteEnd::Failed(m@)),
            ExecuteStep::Finished(Err(_)) => StepView::Finished(ExecuteEnd::Other),
        }
    }
}

/// The client's answer to the next reply, `None` meaning the stream ended.
pub open spec fn spec_execute_step(reply: Option<Reply>) -> StepView {
    match reply {
        None => StepView::Finished(ExecuteEnd::Code(NO_EXIT_CODE)),
        Some(Reply::Output(t)) => StepView::Output(t),
        Some(Reply::Error(t)) => StepView::ErrorOutput(t),
        Some(Reply::Completed(c)) => StepView::Finished(ExecuteEnd::Code(c)),
        Some(Reply::ErrorMessage(m)) => StepView::Finished(ExecuteEnd::Failed(m)),
        Some(_) => StepView::Ignore,
    }
}

pub open spec fn opt_reply(m: Option<DaemonMessage>) -> Option<Reply> {
    match m {
        Some(m) => Some(m@),
        None => None,
    }
}

/// What to do with the next reply of an `Execute` exchange (`None`: the
/// stream ended).
pub fn execute_step(reply: Option<DaemonMessage>) -> (r: ExecuteStep)
    ensures
        r@ == spec_execute_step(opt_reply(reply)),
{
    match reply {
        None => ExecuteStep::Finished(Ok(NO_EXIT_CODE)),
        Some(DaemonMessage::Output(t)) => ExecuteStep::Output(t),
        Some(DaemonMessage::Error(t)) => ExecuteStep::ErrorOutput(t),
        Some(DaemonMessage::Completed { exit_code }) => ExecuteStep::Finished(Ok(exit_code)),
        Some(DaemonMessage::ErrorMessage(m)) => ExecuteStep::Finished(Err(ClientError::Daemon(m))),
        Some(_) => ExecuteStep::Ignore,
    }
}

/// Lines handed to the output callback, lines handed to the error callback,
/// and the end of the exchange, when the client reads `rs` and then the
/// stream ends.
pub open spec fn spec_client_run(rs: Seq<Reply>) -> (Seq<Seq<char>>, Seq<Seq<char>>, ExecuteEnd)
    decreases rs.len(),
{
    if rs.len() == 0 {
        match spec_execute_step(None) {
            StepView::Finished(e) => (seq![], seq![], e),
            _ => (seq![], seq![], ExecuteEnd::Other),
        }
    } else {
        let rest = spec_client_run(rs.drop_first());
        match spec_execute_step(Some(rs[0])) {
            StepView::Output(t) => (seq![t] + rest.0, rest.1, rest.2),
            StepView::ErrorOutput(t) => (rest.0, seq![t] + rest.1, rest.2),
            StepView::Ignore => rest,
            StepView::Finished(e) => (seq![], seq![], e),
        }
    }
}

proof fn lemma_client_reads_lines(lines: Seq<Seq<char>>, last: Reply)
    requires
        spec_execute_step(Some(last)) is Finished,
    ensures
        spec_client_run(output_replies(lines).push(last)) == (
            lines,
            Seq::<Seq<char>>::empty(),
            spec_client_run(seq![last]).2,
        ),
    decreases lines.len(),
{
    let rs = output_replies(lines).push(last);
    if lines.len() == 0 {
        assert(rs =~= seq![last]);
        assert(seq![last].drop_first() =~= Seq::<Reply>::empty());
    } else {
        lemma_client_reads_lines(lines.drop_first(), last);
        assert(rs.drop_first() =~= output_replies(lines.drop_first()).push(last));
        assert(seq![lines[0]] + lines.drop_first() =~= lines);
        assert(seq![last].drop_first() =~= Seq::<Reply>::empty());
    }
}

/// The exchange seen from both ends: the client hands on exactly the lines
/// of its own command, in order, and returns the exit code that the daemon
/// derived from the command's wait status.
pub proof fn lemma_client_gets_exit_code(job: Job, lines: Seq<Seq<char>>, reaped: bool, status: i32)
    ensures
        spec_client_run(
            spec_run(
                Phase::AwaitingMessage,
                seq![live_frame(Frame::Message(Request::Execute(job)))] + output_events(lines)
                    + seq![Event::ChildExited { reaped, status }],
            ).1,
        ) == (lines, Seq::<Seq<char>>::empty(), ExecuteEnd::Code(spec_wait_exit_code(reaped, status) as i32)),
{
    lemma_execute_exchange(job, lines, reaped, status);
    let last = Reply::Completed(spec_wait_exit_code(reaped, status) as i32);
    lemma_client_reads_lines(lines, last);
    assert(seq![last].drop_first() =~= Seq::<Reply>::empty());
}

/// A command that exits with code `c` yields `c` at the client, with its
/// output lines; one that signal `n` ends yields `128 + n` (137 for `SIGKILL`).
pub proof fn lemma_command_exit_reaches_client(job: Job, lines: Seq<Seq<char>>, c: i32, n: i32)
    requires
        0 <= c <= 255,
        1 <= n <= 126,
    ensures
        spec_client_run(
            spec_run(
                Phase::AwaitingMessage,
                seq![live_frame(Frame::Message(Request::Execute(job)))] + output_events(lines)
                    + seq![Event::ChildExited { reaped: true, status: c << 8 }],
            ).1,
        ) == (lines, Seq::<Seq<char>>::empty(), ExecuteEnd::Code(c)),
        spec_client_run(
            spec_run(
                Phase::AwaitingMessage,
                seq![live_frame(Frame::Message(Request::Execute(job)))] + output_events(lines)
                    + seq![Event::ChildExited { reaped: true, status: n }],
            ).1,
        ) == (lines, Seq::<Seq<char>>::empty(), ExecuteEnd::Code((128 + n) as i32)),
{
    lemma_client_gets_exit_code(job, lines, true, c << 8);
    lemma_client_gets_exit_code(job, lines, true, n);
    lemma_exited_exit_code(c);
    lemma_signal_exit_code(n);
}

/// The client's verdict on the reply to `Shutdown` (`None`: the stream
/// ended first).
pub fn shutdown_outcome(reply: Option<DaemonMessage>) -> (r: Result<(), ClientError>)
    ensures
        r is Ok <==> opt_reply(reply) == Some(Reply::ShutdownAck),
        reply is None ==> r is Err && r->Err_0 is ClosedBeforeAck,
        (reply is Some && r is Err) ==> r->Err_0 is UnexpectedResponse && r->Err_0->UnexpectedResponse_0@ == reply->0@,
{
    match reply {
        Some(DaemonMessage::ShutdownAck) => Ok(()),
        Some(m) => Err(ClientError::UnexpectedResponse(m)),
        None => Err(ClientError::ClosedBeforeAck),
    }
}

/// Why the client's command line was refused.
#[derive(Clone, Debug)]
pub enum UsageError {
    /// No program was named.
    MissingProgram,
    /// `--env` came last, without its entry.
    MissingEnvValue,
    /// The entry after `--env` is not of the form `KEY=VALUE`.
    InvalidEnvEntry(String),
}

pub enum UsageErr {
    MissingProgram,
    MissingEnvValue,
    InvalidEnvEntry(Seq<char>),
}

impl View for UsageError {
    type V = UsageErr;

    open spec fn view(&self) -> UsageErr {
        match self {
            UsageError::MissingProgram => UsageErr::MissingProgram,
            UsageError::MissingEnvValue => UsageErr::MissingEnvValue,
            UsageError::InvalidEnvEntry(e) => UsageErr::InvalidEnvEntry(e@),
        }
    }
}

/// A command line of the client: `[--env KEY=VALUE]... <program> [args...]`.
#[derive(Clone, Debug)]
pub struct Invocation {
    /// The `KEY=VALUE` entries, in the order given; they are applied on top of
    /// the caller's environment.
    pub env: Vec<String>,
    pub program: String,
    pub args: Vec<String>,
}

pub struct InvocationView {
    pub env: Seq<Seq<char>>,
    pub program: Seq<char>,
    pub args: Seq<Seq<char>>,
}

impl View for Invocation {
    type V = InvocationView;

    open spec fn view(&self) -> InvocationView {
        InvocationView { env: self.env.deep_view(), program: self.program@, args: self.args.deep_view() }
    }
}

pub open spec fn env_flag() -> Seq<char> {
    "--env"@
}

pub open spec fn spec_parse_client_args(args: Seq<Seq<char>>) -> Result<InvocationView, UsageErr>
    decreases args.len(),
{
    if args.len() == 0 {
        Err(UsageErr::MissingProgram)
    } else if args[0] == env_flag() {
        if args.len() < 2 {
            Err(UsageErr::MissingEnvValue)
        } else if spec_split_env(args[1]) is None {
            Err(UsageErr::InvalidEnvEntry(args[1]))
        } else {
            with_env_prefix(seq![args[1]], spec_parse_client_args(args.skip(2)))
        }
    } else {
        Ok(InvocationView { env: seq![], program: args[0], args: args.skip(1) })
    }
}

pub open spec fn with_env_prefix(pre: Seq<Seq<char>>, r: Result<InvocationView, UsageErr>) -> Result<InvocationView, UsageErr> {
    match r {
        Ok(inv) => Ok(InvocationView { env: pre + inv.env, program: inv.program, args: inv.args }),
        Err(e) => Err(e),
    }
}

pub open spec fn opt_usage(r: Result<Invocation, UsageError>) -> Result<InvocationView, UsageErr> {
    match r {
        Ok(i) => Ok(i@),
        Err(e) => Err(e@),
    }
}

fn clone_from(v: &Vec<String>, start: usize) -> (r: Vec<String>)
    requires
        start <= v@.len(),
    ensures
        r.deep_view() == v.deep_view().skip(start as int),
{
    let mut r: Vec<String> = Vec::new();
    let mut i = start;
    while i < v.len()
        invariant
            start <= i <= v@.len(),
            r.deep_view() == v.deep_view().subrange(start as int, i as int),
        decreases v@.len() - i,
    {
        let ghost before = r.deep_view();
        let s = v[i].clone();
        r.push(s);
        assert(r.deep_view() =~= before.push(v@[i as int]@));
        i = i + 1;
        assert(r.deep_view() =~= v.deep_view().subrange(start as int, i as int));
    }
    assert(v.deep_view().subrange(start as int, i as int) =~= v.deep_view().skip(start as int));
    r
}

/// Parse the client's arguments (the program's own name excluded).
pub fn parse_client_args(args: &Vec<String>) -> (r: Result<Invocation, UsageError>)
    ensures
        opt_usage(r) == spec_parse_client_args(args.deep_view()),
{
    let ghost all = args.deep_view();
    let flag = "--env".to_owned();
    let mut env: Vec<String> = Vec::new();
    let mut i: usize = 0;
    proof {
        assert(all.skip(0) =~= all);
        match spec_parse_client_args(all) {
            Ok(inv) => {
                assert(Seq::<Seq<char>>::empty() + inv.env =~= inv.env);
            },
            Err(_) => {},
        }
        assert(env.deep_view() =~= Seq::<Seq<char>>::empty());
    }
    while i < args.len()
        invariant
            i <= args@.len(),
            all == args.deep_view(),
            flag@ == env_flag(),
            spec_parse_client_args(all) == with_env_prefix(env.deep_view(), spec_parse_client_args(all.skip(i as int))),
        decreases args@.len() - i,
    {
        let ghost rest = all.skip(i as int);
        assert(rest[0] == args[i as int]@);
        if args[i] != flag {
            let program = args[i].clone();
            let more = clone_from(args, i + 1);
            proof {
                assert(rest.skip(1) =~= all.skip(i + 1));
                assert(Seq::<Seq<char>>::empty() + env.deep_view() =~= env.deep_view());
                assert(env.deep_view() + Seq::<Seq<char>>::empty() =~= env.deep_view());
            }
            return Ok(Invocation { env, program, args: more });
        }
        if i + 1 >= args.len() {
            return Err(UsageError::MissingEnvValue);
        }
        assert(rest[1] == args[i + 1]@);
        if split_env_entry(args[i + 1].as_str()).is_none() {
            return Err(UsageError::InvalidEnvEntry(args[i + 1].clone()));
        }
        let entry = args[i + 1].clone();
        let ghost before = env.deep_view();
        proof {
            assert(rest.skip(2) =~= all.skip(i + 2));
            let inner = spec_parse_client_args(all.skip(i + 2));
            assert(before.push(entry@) =~= before + seq![entry@]);
            match inner {
                Ok(inv) => {
                    assert(before + (seq![entry@] + inv.env) =~= (before + seq![entry@]) + inv.env);
                },
                Err(_) => {},
            }
        }
        env.push(entry);
        proof {
            assert(env.deep_view() =~= before.push(entry@));
        }
        i = i + 2;
    }
    proof {
        assert(all.skip(i as int) =~= Seq::<Seq<char>>::empty());
    }
    Err(UsageError::MissingProgram)
}

} // verus!
