use xero_auth::client::{parse_client_args, UsageError};
use xero_auth::environment::split_env_entry;
use xero_auth::framing::{frame, LineBuffer};
use xero_auth::launch::{elevation_args, elevation_program, parse_daemon_args, parse_decimal, ArgError, DaemonOptions};
use xero_auth::paths::{decimal, get_daemon_path, get_xero_auth_path, socket_path};

fn strings(v: &[&str]) -> Vec<String> {
    v.iter().map(|s| s.to_string()).collect()
}

#[test]
fn decimal_rendering() {
    assert_eq!(decimal(0), "0");
    assert_eq!(decimal(7), "7");
    assert_eq!(decimal(1000), "1000");
    assert_eq!(decimal(u32::MAX), "4294967295");
}

#[test]
fn socket_path_of_user() {
    assert_eq!(socket_path(1000), "/run/user/1000/xero-auth.sock");
    assert_eq!(socket_path(0), "/run/user/0/xero-auth.sock");
}

#[test]
fn binary_paths() {
    assert_eq!(get_daemon_path(), "/usr/bin/xero-authd");
    assert_eq!(get_xero_auth_path(), "/usr/bin/xero-auth");
}

#[test]
fn elevation_command() {
    assert_eq!(elevation_program(), "pkexec");
    assert_eq!(
        elevation_args("/usr/bin/xero-authd", 1000, 4242),
        strings(&["/usr/bin/xero-authd", "--uid", "1000", "--parent-pid", "4242"])
    );
}

#[test]
fn decimal_parsing() {
    assert_eq!(parse_decimal("0"), Some(0));
    assert_eq!(parse_decimal("007"), Some(7));
    assert_eq!(parse_decimal("4294967295"), Some(u32::MAX));
    assert_eq!(parse_decimal("4294967296"), None);
    assert_eq!(parse_decimal(""), None);
    assert_eq!(parse_decimal("12a"), None);
    assert_eq!(parse_decimal("-1"), None);
}

#[test]
fn daemon_arguments() {
    assert_eq!(
        parse_daemon_args(&strings(&[])).unwrap(),
        DaemonOptions { effective_uid: None, parent_pid: None }
    );
    assert_eq!(
        parse_daemon_args(&strings(&["--uid", "1000", "--parent-pid", "77"])).unwrap(),
        DaemonOptions { effective_uid: Some(1000), parent_pid: Some(77) }
    );
    assert_eq!(
        parse_daemon_args(&strings(&["--uid", "1", "--uid", "2"])).unwrap(),
        DaemonOptions { effective_uid: Some(2), parent_pid: None }
    );
    assert!(matches!(parse_daemon_args(&strings(&["--verbose"])), Err(ArgError::UnknownArgument(a)) if a == "--verbose"));
    assert!(matches!(parse_daemon_args(&strings(&["--uid"])), Err(ArgError::MissingValue(a)) if a == "--uid"));
    assert!(matches!(parse_daemon_args(&strings(&["--parent-pid", "x"])), Err(ArgError::InvalidNumber(a)) if a == "x"));
}

#[test]
fn client_arguments() {
    let inv = parse_client_args(&strings(&["--env", "A=1", "--env", "B=x=y", "ls", "-l", "--env"])).unwrap();
    assert_eq!(inv.env, strings(&["A=1", "B=x=y"]));
    assert_eq!(inv.program, "ls");
    assert_eq!(inv.args, strings(&["-l", "--env"]));
    assert!(matches!(parse_client_args(&strings(&[])), Err(UsageError::MissingProgram)));
    assert!(matches!(parse_client_args(&strings(&["--env", "A=1"])), Err(UsageError::MissingProgram)));
    assert!(matches!(parse_client_args(&strings(&["--env"])), Err(UsageError::MissingEnvValue)));
    assert!(matches!(parse_client_args(&strings(&["--env", "NOEQ", "ls"])), Err(UsageError::InvalidEnvEntry(e)) if e == "NOEQ"));
}

#[test]
fn env_entries() {
    assert_eq!(split_env_entry("KEY=VALUE"), Some(("KEY".to_string(), "VALUE".to_string())));
    assert_eq!(split_env_entry("K=a=b"), Some(("K".to_string(), "a=b".to_string())));
    assert_eq!(split_env_entry("K="), Some(("K".to_string(), String::new())));
    assert_eq!(split_env_entry("=v"), None);
    assert_eq!(split_env_entry("novalue"), None);
    assert_eq!(split_env_entry(""), None);
}

#[test]
fn line_buffer_cuts_lines() {
    let mut b = LineBuffer::new();
    assert_eq!(b.take_line(), None);
    b.push(b"{\"Ping\"");
    assert_eq!(b.take_line(), None);
    b.push(b"}\nsecond\nthi");
    assert_eq!(b.take_line(), Some(b"{\"Ping\"}\n".to_vec()));
    assert_eq!(b.take_line(), Some(b"second\n".to_vec()));
    assert_eq!(b.take_line(), None);
    assert_eq!(b.len(), 3);
    assert_eq!(b.take_rest(), Some(b"thi".to_vec()));
    assert_eq!(b.take_rest(), None);
    b.push(b"\n");
    assert_eq!(b.take_line(), Some(b"\n".to_vec()));
}

#[test]
fn frame_appends_newline() {
    assert_eq!(frame("\"Pong\""), "\"Pong\"\n");
    assert_eq!(frame(""), "\n");
}
