//! File-system locations: the socket of a user's session and the installed
//! binaries.

use vstd::prelude::*;
use crate::text::push_char;

verus! {

pub open spec fn digit_char(d: nat) -> char {
    if d == 0 { '0' }
    else if d == 1 { '1' }
    else if d == 2 { '2' }
    else if d == 3 { '3' }
    else if d == 4 { '4' }
    else if d == 5 { '5' }
    else if d == 6 { '6' }
    else if d == 7 { '7' }
    else if d == 8 { '8' }
    else { '9' }
}

/// Decimal notation of `n`, without leading zeros.
pub open spec fn spec_decimal(n: nat) -> Seq<char>
    decreases n,
{
    if n < 10 {
        seq![digit_char(n)]
    } else {
        spec_decimal(n / 10).push(digit_char(n % 10))
    }
}

fn digit(d: u32) -> (c: char)
    requires
        d < 10,
    ensures
        c == digit_char(d as nat),
{
    match d {
        0 => '0',
        1 => '1',
        2 => '2',
        3 => '3',
        4 => '4',
        5 => '5',
        6 => '6',
        7 => '7',
        8 => '8',
        _ => '9',
    }
}

fn append_decimal(out: &mut String, n: u32)
    ensures
        final(out)@ == old(out)@ + spec_decimal(n as nat),
    decreases n,
{
    if n >= 10 {
        append_decimal(out, n / 10);
    }
    push_char(out, digit(n % 10));
    proof {
        if n < 10 {
            assert(spec_decimal(n as nat) == seq![digit_char(n as nat)]);
        }
    }
    assert(final(out)@ =~= old(out)@ + spec_decimal(n as nat)) by {
        if n >= 10 {
            assert(spec_decimal(n as nat) == spec_decimal((n / 10) as nat).push(digit_char((n % 10) as nat)));
        }
    }
}

/// Decimal notation of `n`.
pub fn decimal(n: u32) -> (r: String)
    ensures
        r@ == spec_decimal(n as nat),
{
    let mut r = String::new();
    append_decimal(&mut r, n);
    assert(r@ =~= spec_decimal(n as nat));
    r
}

pub open spec fn runtime_root() -> Seq<char> {
    "/run/user/"@
}

pub open spec fn socket_name() -> Seq<char> {
    "/xero-auth.sock"@
}

/// The socket of the session that serves the user `uid`: inside that user's
/// runtime directory.
pub open spec fn spec_socket_path(uid: u32) -> Seq<char> {
    runtime_root() + spec_decimal(uid as nat) + socket_name()
}

/// Path of the socket of the session that serves the user `uid`.
pub fn socket_path(uid: u32) -> (r: String)
    ensures
        r@ == spec_socket_path(uid),
{
    let mut r = "/run/user/".to_owned();
    append_decimal(&mut r, uid);
    r.append("/xero-auth.sock");
    r
}

pub open spec fn daemon_binary() -> Seq<char> {
    "/usr/bin/xero-authd"@
}

pub open spec fn client_binary() -> Seq<char> {
    "/usr/bin/xero-auth"@
}

/// Path of the daemon binary.
pub fn get_daemon_path() -> (r: String)
    ensures
        r@ == daemon_binary(),
{
    "/usr/bin/xero-authd".to_owned()
}

/// Path of the command-line client binary.
pub fn get_xero_auth_path() -> (r: String)
    ensures
        r@ == client_binary(),
{
    "/usr/bin/xero-auth".to_owned()
}

} // verus!
