//! The closed, platform-normalized set of payload access modes, and its
//! mapping onto native protection flags. The portable set carries every
//! combination of read, write and execute rights; platform-only extensions
//! stay outside the verified core.

use vstd::prelude::*;

verus! {

/// Access rights a payload region can be placed under.
#[derive(Clone, Copy, Debug, PartialEq, Eq, Structural)]
pub enum Prot {
    NoAccess,
    ReadOnly,
    WriteOnly,
    ReadWrite,
    Execute,
    ReadExec,
    WriteExec,
    ReadWriteExec,
}

/// Whether a region under `p` may be read.
pub open spec fn readable(p: Prot) -> bool {
    match p {
        Prot::ReadOnly | Prot::ReadWrite | Prot::ReadExec | Prot::ReadWriteExec => true,
        _ => false,
    }
}

/// Whether a region under `p` may be written.
pub open spec fn writable(p: Prot) -> bool {
    match p {
        Prot::WriteOnly | Prot::ReadWrite | Prot::WriteExec | Prot::ReadWriteExec => true,
        _ => false,
    }
}

/// The POSIX `PROT_*` flag value of each mode: the bitwise-or of
/// `PROT_READ` (1), `PROT_WRITE` (2) and `PROT_EXEC` (4), with
/// `PROT_NONE` (0) for no access.
pub open spec fn native_flag_spec(p: Prot) -> int {
    (if readable(p) { 1int } else { 0int })
        + (if writable(p) { 2int } else { 0int })
        + (if executable(p) { 4int } else { 0int })
}

/// Whether a region under `p` may be executed.
pub open spec fn executable(p: Prot) -> bool {
    match p {
        Prot::Execute | Prot::ReadExec | Prot::WriteExec | Prot::ReadWriteExec => true,
        _ => false,
    }
}

/// The native flag word handed to the platform's protection call.
pub fn native_flag(p: Prot) -> (r: i32)
    ensures
        r as int == native_flag_spec(p),
{
    match p {
        Prot::NoAccess => 0,
        Prot::ReadOnly => 1,
        Prot::WriteOnly => 2,
        Prot::ReadWrite => 3,
        Prot::Execute => 4,
        Prot::ReadExec => 5,
        Prot::WriteExec => 6,
        Prot::ReadWriteExec => 7,
    }
}

} // verus!
