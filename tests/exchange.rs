use xero_auth::client::{execute_step, shutdown_outcome, ClientError, ExecuteStep};
use xero_auth::connection::{ConnEvent, Connection, Incoming, Phase, Reaction};
use xero_auth::protocol::{ClientMessage, DaemonMessage};

fn frame(msg: ClientMessage) -> ConnEvent {
    ConnEvent::Frame { incoming: Incoming::Message(msg), shutdown_requested: false, parent_alive: true }
}

fn execute(program: &str, args: &[&str]) -> ClientMessage {
    ClientMessage::Execute {
        program: program.to_string(),
        args: args.iter().map(|a| a.to_string()).collect(),
        env: Vec::new(),
        working_dir: None,
    }
}

/// Runs an exchange through the connection, collecting every reply.
fn run(conn: &mut Connection, events: Vec<ConnEvent>) -> Vec<DaemonMessage> {
    let mut out = Vec::new();
    for e in events {
        let r: Reaction = conn.step(e);
        out.extend(r.replies);
    }
    out
}

/// Feeds replies to the client side; returns output lines, error lines and the result.
fn client(replies: Vec<DaemonMessage>) -> (Vec<String>, Vec<String>, Result<i32, ClientError>) {
    let mut outs = Vec::new();
    let mut errs = Vec::new();
    let mut it = replies.into_iter();
    loop {
        match execute_step(it.next()) {
            ExecuteStep::Output(t) => outs.push(t),
            ExecuteStep::ErrorOutput(t) => errs.push(t),
            ExecuteStep::Ignore => {}
            ExecuteStep::Finished(r) => return (outs, errs, r),
        }
    }
}

#[test]
fn echo_hello_yields_line_and_zero() {
    let mut c = Connection::new();
    let r = c.step(frame(execute("echo", &["hello"])));
    assert!(r.replies.is_empty());
    let job = r.run.expect("a command to start");
    assert_eq!(job.program, "echo");
    assert_eq!(job.args, vec!["hello".to_string()]);
    assert_eq!(c.phase(), Phase::Executing);
    let replies = run(
        &mut c,
        vec![ConnEvent::OutputLine("hello\n".to_string()), ConnEvent::ChildExited { reaped: true, status: 0 }],
    );
    assert_eq!(c.phase(), Phase::AwaitingMessage);
    let (outs, errs, res) = client(replies);
    assert_eq!(outs, vec!["hello\n".to_string()]);
    assert!(errs.is_empty());
    assert_eq!(res.unwrap(), 0);
}

#[test]
fn exit_three_yields_three_without_output() {
    let mut c = Connection::new();
    let replies = run(
        &mut c,
        vec![frame(execute("sh", &["-c", "exit 3"])), ConnEvent::ChildExited { reaped: true, status: 3 << 8 }],
    );
    assert_eq!(replies.len(), 1);
    assert!(matches!(replies[0], DaemonMessage::Completed { exit_code: 3 }));
    let (outs, _, res) = client(replies);
    assert!(outs.is_empty());
    assert_eq!(res.unwrap(), 3);
}

#[test]
fn sigkill_yields_137() {
    let mut c = Connection::new();
    let replies = run(&mut c, vec![frame(execute("sleep", &["100"])), ConnEvent::ChildExited { reaped: true, status: 9 }]);
    assert!(matches!(replies[0], DaemonMessage::Completed { exit_code: 137 }));
    assert_eq!(client(replies).2.unwrap(), 137);
}

#[test]
fn failed_wait_yields_minus_one() {
    let mut c = Connection::new();
    let replies = run(&mut c, vec![frame(execute("true", &[])), ConnEvent::ChildExited { reaped: false, status: 0 }]);
    assert!(matches!(replies[0], DaemonMessage::Completed { exit_code: -1 }));
}

#[test]
fn ping_yields_only_pong_after_earlier_work() {
    let mut c = Connection::new();
    run(&mut c, vec![frame(execute("true", &[])), ConnEvent::ChildExited { reaped: true, status: 0 }]);
    let r = c.step(frame(ClientMessage::Ping));
    assert_eq!(r.replies.len(), 1);
    assert!(matches!(r.replies[0], DaemonMessage::Pong));
    assert!(!r.close && !r.request_shutdown && r.run.is_none());
    assert_eq!(c.phase(), Phase::AwaitingMessage);
}

#[test]
fn shutdown_yields_one_ack_and_closes() {
    let mut c = Connection::new();
    let r = c.step(frame(ClientMessage::Shutdown));
    assert_eq!(r.replies.len(), 1);
    assert!(matches!(r.replies[0], DaemonMessage::ShutdownAck));
    assert!(r.request_shutdown && r.close);
    assert_eq!(c.phase(), Phase::Closed);
    let later = c.step(frame(ClientMessage::Ping));
    assert!(later.replies.is_empty());
    assert!(shutdown_outcome(Some(DaemonMessage::ShutdownAck)).is_ok());
}

#[test]
fn malformed_frame_then_valid_message() {
    let mut c = Connection::new();
    let bad = ConnEvent::Frame {
        incoming: Incoming::Malformed("expected value at line 1 column 1".to_string()),
        shutdown_requested: false,
        parent_alive: true,
    };
    let r = c.step(bad);
    assert_eq!(r.replies.len(), 1);
    match &r.replies[0] {
        DaemonMessage::ErrorMessage(m) => {
            assert_eq!(m, "Failed to parse message: expected value at line 1 column 1")
        }
        other => panic!("unexpected {:?}", other),
    }
    assert!(!r.close);
    let r = c.step(frame(ClientMessage::Ping));
    assert!(matches!(r.replies[0], DaemonMessage::Pong));
}

#[test]
fn dead_parent_rejects_request() {
    let mut c = Connection::new();
    let r = c.step(ConnEvent::Frame {
        incoming: Incoming::Message(execute("id", &[])),
        shutdown_requested: false,
        parent_alive: false,
    });
    assert!(r.run.is_none());
    assert!(r.request_shutdown && r.close);
    match &r.replies[0] {
        DaemonMessage::ErrorMessage(m) => assert_eq!(m, "Parent process is no longer running"),
        other => panic!("unexpected {:?}", other),
    }
}

#[test]
fn raised_flag_closes_without_reply() {
    let mut c = Connection::new();
    let r = c.step(ConnEvent::Frame {
        incoming: Incoming::Message(ClientMessage::Ping),
        shutdown_requested: true,
        parent_alive: true,
    });
    assert!(r.replies.is_empty() && r.close && !r.request_shutdown);
}

#[test]
fn end_of_stream_closes() {
    let mut c = Connection::new();
    let r = c.step(ConnEvent::EndOfStream);
    assert!(r.close && r.replies.is_empty());
    assert_eq!(c.phase(), Phase::Closed);
}

#[test]
fn spawn_failure_reports_error_and_keeps_connection() {
    let mut c = Connection::new();
    c.step(frame(execute("ls", &[])));
    let r = c.step(ConnEvent::SpawnFailed("no pty".to_string()));
    match &r.replies[0] {
        DaemonMessage::ErrorMessage(m) => assert_eq!(m, "Failed to create PTY: no pty"),
        other => panic!("unexpected {:?}", other),
    }
    assert_eq!(c.phase(), Phase::AwaitingMessage);
}

#[test]
fn two_connections_keep_their_own_lines() {
    let mut a = Connection::new();
    let mut b = Connection::new();
    a.step(frame(execute("echo", &["a"])));
    b.step(frame(execute("echo", &["b"])));
    let ra1 = a.step(ConnEvent::OutputLine("a\n".to_string()));
    let rb1 = b.step(ConnEvent::OutputLine("b\n".to_string()));
    let rb2 = b.step(ConnEvent::ChildExited { reaped: true, status: 1 << 8 });
    let ra2 = a.step(ConnEvent::ChildExited { reaped: true, status: 0 });
    let (oa, _, ca) = client(ra1.replies.into_iter().chain(ra2.replies).collect());
    let (ob, _, cb) = client(rb1.replies.into_iter().chain(rb2.replies).collect());
    assert_eq!(oa, vec!["a\n".to_string()]);
    assert_eq!(ob, vec!["b\n".to_string()]);
    assert_eq!(ca.unwrap(), 0);
    assert_eq!(cb.unwrap(), 1);
}

#[test]
fn client_reports_daemon_error() {
    let (_, _, r) = client(vec![DaemonMessage::ErrorMessage("boom".to_string())]);
    match r {
        Err(ClientError::Daemon(m)) => assert_eq!(m, "boom"),
        other => panic!("unexpected {:?}", other),
    }
}

#[test]
fn client_without_completed_yields_minus_one() {
    let (outs, errs, r) = client(vec![
        DaemonMessage::Output("x\n".to_string()),
        DaemonMessage::Error("y\n".to_string()),
        DaemonMessage::Pong,
    ]);
    assert_eq!(outs, vec!["x\n".to_string()]);
    assert_eq!(errs, vec!["y\n".to_string()]);
    assert_eq!(r.unwrap(), -1);
}

#[test]
fn shutdown_outcome_errors() {
    assert!(matches!(shutdown_outcome(None), Err(ClientError::ClosedBeforeAck)));
    assert!(matches!(
        shutdown_outcome(Some(DaemonMessage::Pong)),
        Err(ClientError::UnexpectedResponse(DaemonMessage::Pong))
    ));
}

#[test]
fn terminal_replies() {
    assert!(DaemonMessage::Completed { exit_code: 0 }.is_terminal());
    assert!(DaemonMessage::Pong.is_terminal());
    assert!(DaemonMessage::ShutdownAck.is_terminal());
    assert!(DaemonMessage::ErrorMessage(String::new()).is_terminal());
    assert!(!DaemonMessage::Output(String::new()).is_terminal());
    assert!(!DaemonMessage::Error(String::new()).is_terminal());
}
