//! Messages exchanged between the client and the daemon.
//!
//! On the wire each message is one serialized value followed by a newline;
//! the framing is in `framing`, the encoding of a single value is done by the
//! serializer around the library.

use vstd::prelude::*;
use crate::text::opt_text;

verus! {

/// A request sent by a client.
#[derive(Clone, Debug)]
pub enum ClientMessage {
    /// Run `program` with `args`, with `env` entries (`KEY=VALUE`) applied on
    /// top of the daemon's environment, optionally in `working_dir`.
    Execute {
        program: String,
        args: Vec<String>,
        env: Vec<String>,
        working_dir: Option<String>,
    },
    /// Liveness probe.
    Ping,
    /// Ask the daemon to stop.
    Shutdown,
}

/// A response sent by the daemon.
#[derive(Clone, Debug)]
pub enum DaemonMessage {
    /// A line of the command's output.
    Output(String),
    /// A line of the command's error output.
    Error(String),
    /// The command finished with this exit code.
    Completed { exit_code: i32 },
    /// The request could not be served.
    ErrorMessage(String),
    /// Answer to `Ping`.
    Pong,
    /// Answer to `Shutdown`.
    ShutdownAck,
}

/// The mathematical value of a command to run.
pub struct Job {
    pub program: Seq<char>,
    pub args: Seq<Seq<char>>,
    pub env: Seq<Seq<char>>,
    pub working_dir: Option<Seq<char>>,
}

/// The mathematical value of a request.
pub enum Request {
    Execute(Job),
    Ping,
    Shutdown,
}

/// The mathematical value of a response.
pub enum Reply {
    Output(Seq<char>),
    Error(Seq<char>),
    Completed(i32),
    ErrorMessage(Seq<char>),
    Pong,
    ShutdownAck,
}

impl View for ClientMessage {
    type V = Request;

    open spec fn view(&self) -> Request {
        match self {
            ClientMessage::Execute { program, args, env, working_dir } => Request::Execute(
                Job {
                    program: program@,
                    args: args.deep_view(),
                    env: env.deep_view(),
                    working_dir: opt_text(*working_dir),
                },
            ),
            ClientMessage::Ping => Request::Ping,
            ClientMessage::Shutdown => Request::Shutdown,
        }
    }
}

impl View for DaemonMessage {
    type V = Reply;

    open spec fn view(&self) -> Reply {
        match self {
            DaemonMessage::Output(t) => Reply::Output(t@),
            DaemonMessage::Error(t) => Reply::Error(t@),
            DaemonMessage::Completed { exit_code } => Reply::Completed(*exit_code),
            DaemonMessage::ErrorMessage(t) => Reply::ErrorMessage(t@),
            DaemonMessage::Pong => Reply::Pong,
            DaemonMessage::ShutdownAck => Reply::ShutdownAck,
        }
    }
}

/// A reply after which a client stops reading.
pub open spec fn spec_is_terminal(r: Reply) -> bool {
    match r {
        Reply::Completed(_) | Reply::ShutdownAck | Reply::Pong | Reply::ErrorMessage(_) => true,
        _ => false,
    }
}

impl DaemonMessage {
    /// Whether this reply ends a request/response exchange.
    pub fn is_terminal(&self) -> (r: bool)
        ensures
            r == spec_is_terminal(self@),
    {
        match self {
            DaemonMessage::Completed { .. } => true,
            DaemonMessage::ShutdownAck => true,
            DaemonMessage::Pong => true,
            DaemonMessage::ErrorMessage(_) => true,
            _ => false,
        }
    }
}

} // verus!
