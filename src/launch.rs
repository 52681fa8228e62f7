//! Bringing the daemon up: the elevated command that starts it, the wait for
//! its socket, and the daemon's own command line.

use vstd::prelude::*;
use crate::paths::{decimal, spec_decimal};

verus! {

/// Overall bound on the wait for the daemon's socket.
pub const LAUNCH_TIMEOUT_MS: u64 = 60000;

/// Interval between two looks for the socket.
pub const LAUNCH_POLL_MS: u64 = 50;

pub open spec fn uid_flag() -> Seq<char> {
    "--uid"@
}

pub open spec fn parent_pid_flag() -> Seq<char> {
    "--parent-pid"@
}

pub open spec fn helper_name() -> Seq<char> {
    "pkexec"@
}

/// The elevation helper that starts the daemon with root rights.
pub fn elevation_program() -> (r: String)
    ensures
        r@ == helper_name(),
{
    "pkexec".to_owned()
}

/// Arguments of the elevation helper: the daemon binary, then the caller's
/// uid and process id, so that the daemon serves that user and ends with
/// that process.
pub fn elevation_args(daemon_path: &str, uid: u32, pid: u32) -> (r: Vec<String>)
    ensures
        r.deep_view() == seq![
            daemon_path@,
            uid_flag(),
            spec_decimal(uid as nat),
            parent_pid_flag(),
            spec_decimal(pid as nat),
        ],
{
    let mut r: Vec<String> = Vec::new();
    r.push(daemon_path.to_owned());
    r.push("--uid".to_owned());
    r.push(decimal(uid));
    r.push("--parent-pid".to_owned());
    r.push(decimal(pid));
    assert(r.deep_view() =~= seq![
        daemon_path@,
        uid_flag(),
        spec_decimal(uid as nat),
        parent_pid_flag(),
        spec_decimal(pid as nat),
    ]);
    r
}

/// Why the daemon did not come up.
#[derive(Clone, Copy, Debug, PartialEq, Eq, Structural)]
pub enum LaunchError {
    /// The elevation helper ended before the socket appeared: the user
    /// cancelled the authentication, or it failed.
    HelperExited,
    /// The socket did not appear in time.
    TimedOut,
}

/// Result of one look for the daemon's socket.
#[derive(Clone, Copy, Debug, PartialEq, Eq, Structural)]
pub enum LaunchPoll {
    /// The socket exists: the daemon is up.
    Ready,
    /// Look again after `LAUNCH_POLL_MS`.
    Wait,
    /// Give up.
    Failed(LaunchError),
}

pub open spec fn spec_launch_poll(socket_exists: bool, helper_exited: bool, elapsed_ms: u64) -> LaunchPoll {
    if socket_exists {
        LaunchPoll::Ready
    } else if helper_exited {
        LaunchPoll::Failed(LaunchError::HelperExited)
    } else if elapsed_ms >= LAUNCH_TIMEOUT_MS {
        LaunchPoll::Failed(LaunchError::TimedOut)
    } else {
        LaunchPoll::Wait
    }
}

/// One look for the socket, `elapsed_ms` after the helper was started.
pub fn launch_poll(socket_exists: bool, helper_exited: bool, elapsed_ms: u64) -> (r: LaunchPoll)
    ensures
        r == spec_launch_poll(socket_exists, helper_exited, elapsed_ms),
{
    if socket_exists {
        LaunchPoll::Ready
    } else if helper_exited {
        LaunchPoll::Failed(LaunchError::HelperExited)
    } else if elapsed_ms >= LAUNCH_TIMEOUT_MS {
        LaunchPoll::Failed(LaunchError::TimedOut)
    } else {
        LaunchPoll::Wait
    }
}

pub open spec fn is_digit(c: char) -> bool {
    '0' <= c && c <= '9'
}

pub open spec fn digit_value(c: char) -> nat {
    ((c as u32) - ('0' as u32)) as nat
}

pub open spec fn all_digits(s: Seq<char>) -> bool {
    forall|i: int| 0 <= i < s.len() ==> is_digit(s[i])
}

/// The number that the decimal digits `s` denote.
pub open spec fn spec_value(s: Seq<char>) -> nat
    decreases s.len(),
{
    if s.len() == 0 {
        0
    } else {
        spec_value(s.drop_last()) * 10 + digit_value(s.last())
    }
}

/// `s` is the decimal notation of a `u32`, leading zeros allowed.
pub open spec fn is_u32_text(s: Seq<char>) -> bool {
    s.len() > 0 && all_digits(s) && spec_value(s) <= u32::MAX
}

proof fn lemma_value_prefix(s: Seq<char>, k: int)
    requires
        0 <= k <= s.len(),
        all_digits(s),
    ensures
        spec_value(s.take(k)) <= spec_value(s),
    decreases s.len(),
{
    if k < s.len() {
        assert(s.drop_last().take(k) =~= s.take(k));
        lemma_value_prefix(s.drop_last(), k);
    } else {
        assert(s.take(k) =~= s);
    }
}

/// Parse a decimal `u32`.
pub fn parse_decimal(s: &str) -> (r: Option<u32>)
    ensures
        r is Some <==> is_u32_text(s@),
        r is Some ==> r->0 as nat == spec_value(s@),
{
    let n = s.unicode_len();
    if n == 0 {
        return None;
    }
    let mut acc: u64 = 0;
    let mut i: usize = 0;
    while i < n
        invariant
            n == s@.len(),
            i <= n,
            all_digits(s@.take(i as int)),
            acc as nat == spec_value(s@.take(i as int)),
            acc <= u32::MAX,
        decreases n - i,
    {
        let c = s.get_char(i);
        if !('0' <= c && c <= '9') {
            return None;
        }
        let d = (c as u32 - '0' as u32) as u64;
        acc = acc * 10 + d;
        proof {
            let t = s@.take(i + 1);
            assert(t.drop_last() =~= s@.take(i as int));
            assert(t.last() == c);
        }
        if acc > 4294967295 {
            proof {
                if all_digits(s@) {
                    lemma_value_prefix(s@, i + 1);
                }
            }
            return None;
        }
        i = i + 1;
    }
    assert(s@.take(n as int) =~= s@);
    Some(acc as u32)
}

/// What the daemon was asked to serve.
#[derive(Clone, Copy, Debug, PartialEq, Eq, Structural)]
pub struct DaemonOptions {
    /// The user whose session this is; the socket is placed and opened for
    /// that user.
    pub effective_uid: Option<u32>,
    /// The process whose end ends the daemon.
    pub parent_pid: Option<u32>,
}

/// Why the daemon's command line was refused.
#[derive(Clone, Debug)]
pub enum ArgError {
    UnknownArgument(String),
    MissingValue(String),
    InvalidNumber(String),
}

pub enum ArgErr {
    UnknownArgument(Seq<char>),
    MissingValue(Seq<char>),
    InvalidNumber(Seq<char>),
}

impl View for ArgError {
    type V = ArgErr;

    open spec fn view(&self) -> ArgErr {
        match self {
            ArgError::UnknownArgument(a) => ArgErr::UnknownArgument(a@),
            ArgError::MissingValue(a) => ArgErr::MissingValue(a@),
            ArgError::InvalidNumber(a) => ArgErr::InvalidNumber(a@),
        }
    }
}

/// Options from the arguments; when a flag is repeated the last one counts.
pub open spec fn spec_parse_daemon_args(args: Seq<Seq<char>>) -> Result<DaemonOptions, ArgErr>
    decreases args.len(),
{
    if args.len() == 0 {
        Ok(DaemonOptions { effective_uid: None, parent_pid: None })
    } else if args[0] == uid_flag() || args[0] == parent_pid_flag() {
        if args.len() < 2 {
            Err(ArgErr::MissingValue(args[0]))
        } else if !is_u32_text(args[1]) {
            Err(ArgErr::InvalidNumber(args[1]))
        } else {
            match spec_parse_daemon_args(args.skip(2)) {
                Ok(o) => Ok(
                    if args[0] == uid_flag() {
                        DaemonOptions {
                            effective_uid: if o.effective_uid is Some { o.effective_uid } else { Some(spec_value(args[1]) as u32) },
                            parent_pid: o.parent_pid,
                        }
                    } else {
                        DaemonOptions {
                            effective_uid: o.effective_uid,
                            parent_pid: if o.parent_pid is Some { o.parent_pid } else { Some(spec_value(args[1]) as u32) },
                        }
                    },
                ),
                Err(e) => Err(e),
            }
        }
    } else {
        Err(ArgErr::UnknownArgument(args[0]))
    }
}

pub open spec fn or_else(later: Option<u32>, earlier: Option<u32>) -> Option<u32> {
    if later is Some { later } else { earlier }
}

pub open spec fn merge_options(earlier: DaemonOptions, r: Result<DaemonOptions, ArgErr>) -> Result<DaemonOptions, ArgErr> {
    match r {
        Ok(o) => Ok(DaemonOptions {
            effective_uid: or_else(o.effective_uid, earlier.effective_uid),
            parent_pid: or_else(o.parent_pid, earlier.parent_pid),
        }),
        Err(e) => Err(e),
    }
}

pub open spec fn opt_args(r: Result<DaemonOptions, ArgError>) -> Result<DaemonOptions, ArgErr> {
    match r {
        Ok(o) => Ok(o),
        Err(e) => Err(e@),
    }
}

/// Parse the daemon's arguments (the program's own name excluded):
/// `--uid N` and `--parent-pid N`, each optional.
pub fn parse_daemon_args(args: &Vec<String>) -> (r: Result<DaemonOptions, ArgError>)
    ensures
        opt_args(r) == spec_parse_daemon_args(args.deep_view()),
{
    let ghost all = args.deep_view();
    let uid_text = "--uid".to_owned();
    let pid_text = "--parent-pid".to_owned();
    let mut opts = DaemonOptions { effective_uid: None, parent_pid: None };
    let mut i: usize = 0;
    proof {
        assert(all.skip(0) =~= all);
        match spec_parse_daemon_args(all) {
            Ok(o) => {
                assert(merge_options(opts, Ok(o)) == Ok::<DaemonOptions, ArgErr>(o));
            },
            Err(_) => {},
        }
    }
    while i < args.len()
        invariant
            i <= args@.len(),
            all == args.deep_view(),
            uid_text@ == uid_flag(),
            pid_text@ == parent_pid_flag(),
            spec_parse_daemon_args(all) == merge_options(opts, spec_parse_daemon_args(all.skip(i as int))),
        decreases args@.len() - i,
    {
        let ghost rest = all.skip(i as int);
        assert(rest[0] == args[i as int]@);
        let is_uid = args[i] == uid_text;
        let is_pid = args[i] == pid_text;
        if !is_uid && !is_pid {
            return Err(ArgError::UnknownArgument(args[i].clone()));
        }
        if i + 1 >= args.len() {
            return Err(ArgError::MissingValue(args[i].clone()));
        }
        assert(rest[1] == args[i + 1]@);
        let v = match parse_decimal(args[i + 1].as_str()) {
            Some(v) => v,
            None => {
                return Err(ArgError::InvalidNumber(args[i + 1].clone()));
            },
        };
        proof {
            assert(rest.skip(2) =~= all.skip(i + 2));
        }
        if is_uid {
            opts = DaemonOptions { effective_uid: Some(v), parent_pid: opts.parent_pid };
        } else {
            opts = DaemonOptions { effective_uid: opts.effective_uid, parent_pid: Some(v) };
        }
        i = i + 2;
    }
    proof {
        assert(all.skip(i as int) =~= Seq::<Seq<char>>::empty());
    }
    Ok(opts)
}

} // verus!
