//! Turning the status of a reaped child into a shell-style exit code.

use vstd::prelude::*;

verus! {

/// The low seven bits of a wait status: zero when the child exited, the
/// terminating signal otherwise.
pub open spec fn low_bits(status: i32) -> i32 {
    status & 0x7f
}

/// The exit status byte stored by the kernel for a child that exited.
pub open spec fn exit_byte(status: i32) -> i32 {
    (status >> 8) & 0xff
}

pub open spec fn spec_exited(status: i32) -> bool {
    low_bits(status) == 0
}

pub open spec fn spec_signaled(status: i32) -> bool {
    1 <= low_bits(status) <= 126
}

/// The exit code reported for a reaped child: its own code when it exited,
/// `128 + N` when signal `N` ended it, and `-1` for any other status.
pub open spec fn spec_exit_code(status: i32) -> int {
    if spec_exited(status) {
        exit_byte(status) as int
    } else if spec_signaled(status) {
        128 + low_bits(status)
    } else {
        -1
    }
}

/// The exit code reported when waiting for the child may have failed.
pub open spec fn spec_wait_exit_code(reaped: bool, status: i32) -> int {
    if reaped {
        spec_exit_code(status)
    } else {
        -1
    }
}

/// Relies on libc::WIFEXITED: true exactly when the low seven bits are zero.
#[verifier::external_body]
fn wifexited(status: i32) -> (r: bool)
    ensures
        r == spec_exited(status),
{
    libc::WIFEXITED(status)
}

/// Relies on libc::WEXITSTATUS: bits 8 to 15 of the status.
#[verifier::external_body]
fn wexitstatus(status: i32) -> (r: i32)
    ensures
        r == exit_byte(status),
{
    libc::WEXITSTATUS(status)
}

/// Relies on libc::WIFSIGNALED: true when the low seven bits lie in 1..=126
/// (0 means exited, 127 means stopped).
#[verifier::external_body]
fn wifsignaled(status: i32) -> (r: bool)
    ensures
        r == spec_signaled(status),
{
    libc::WIFSIGNALED(status)
}

/// Relies on libc::WTERMSIG: the low seven bits of the status.
#[verifier::external_body]
fn wtermsig(status: i32) -> (r: i32)
    ensures
        r == low_bits(status),
{
    libc::WTERMSIG(status)
}

/// Exit code of a child from the raw status that `waitpid` stored.
pub fn exit_code_from_status(status: i32) -> (code: i32)
    ensures
        code == spec_exit_code(status),
{
    if wifexited(status) {
        wexitstatus(status)
    } else if wifsignaled(status) {
        let sig = wtermsig(status);
        128 + sig
    } else {
        -1
    }
}

/// Exit code of a child given whether `waitpid` reaped it and, if so, the
/// status it stored.
pub fn exit_code_from_wait(reaped: bool, status: i32) -> (code: i32)
    ensures
        code == spec_wait_exit_code(reaped, status),
{
    if reaped {
        exit_code_from_status(status)
    } else {
        -1
    }
}

/// Signal `N` yields `128 + N`; in particular a child killed by signal 9
/// yields 137.
pub proof fn lemma_signal_exit_code(sig: i32)
    requires
        1 <= sig <= 126,
    ensures
        spec_exit_code(sig) == 128 + sig,
        spec_exit_code(9) == 137,
{
    assert((sig & 0x7f) == sig) by (bit_vector)
        requires
            1 <= sig <= 126,
    ;
    assert((9i32 & 0x7f) == 9) by (bit_vector);
}

/// A child that exited with code `c` (0..=255) is reported with code `c`.
pub proof fn lemma_exited_exit_code(c: i32)
    requires
        0 <= c <= 255,
    ensures
        spec_exit_code(c << 8) == c,
{
    assert(((c << 8) & 0x7f) == 0 && (((c << 8) >> 8) & 0xff) == c) by (bit_vector)
        requires
            0 <= c <= 255,
    ;
}

} // verus!
