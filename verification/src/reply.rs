use vstd::prelude::*;

verus! {

/// Number of entries in the fixed buffer handed to the process
/// enumeration primitive.  The buffer is never grown: on a system with
/// more live processes than this, the excess is truncated (a documented
/// limitation, not an error).
pub const PID_CAPACITY: usize = 1024;

/// Number of entries in the fixed buffer handed to the module
/// enumeration primitive; oversized module lists are truncated likewise.
pub const MODULE_CAPACITY: usize = 1024;

/// Number of bytes in the fixed buffer handed to the module name
/// primitive; overlong names are truncated likewise.
pub const NAME_CAPACITY: usize = 256;

/// Size in bytes of one process identifier as the enumeration primitive
/// writes it: the primitive reports bytes written, and the entry count is
/// recovered by division.
pub const PID_BYTES: u32 = 4;

/// Size in bytes of one module handle as this library represents it
/// (an 8-byte opaque value); used to recover the module count from the
/// bytes-written report.
pub const MODULE_HANDLE_BYTES: u32 = 8;

/// What the process enumeration primitive reported: a success flag, the
/// last-error code snapshotted at the call site (meaningful only on
/// failure), the number of bytes written, and the identifier buffer.
#[derive(Debug)]
pub struct PidsReply {
    pub ok: bool,
    pub os_error: u32,
    pub bytes_written: u32,
    pub pids: Vec<u32>,
}

/// What the module enumeration primitive reported for one process.
#[derive(Debug)]
pub struct ModulesReply {
    pub ok: bool,
    pub os_error: u32,
    pub bytes_written: u32,
    pub modules: Vec<u64>,
}

/// What the module name primitive reported for one module: the number of
/// characters written (zero signals failure), the last-error code, and
/// the byte buffer the name was written into.
#[derive(Debug)]
pub struct NameReply {
    pub chars_written: u32,
    pub os_error: u32,
    pub buf: Vec<u8>,
}

/// The smaller of two mathematical integers.
pub open spec fn min_int(a: int, b: int) -> int {
    if a < b {
        a
    } else {
        b
    }
}

} // verus!
