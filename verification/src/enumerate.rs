use vstd::prelude::*;
use crate::error::SnapError;
use crate::reply::{min_int, PidsReply, PID_BYTES};
use crate::resolver::copy_prefix;

verus! {

/// What a process enumeration reply amounts to: the identifiers actually
/// written (bytes written divided by the size of one identifier, capped
/// by the buffer's length), or the fatal enumeration error.
pub open spec fn pids_result_of(r: PidsReply) -> Result<Seq<u32>, SnapError> {
    if !r.ok {
        Result::Err(SnapError::OsEnumerationFailed(r.os_error))
    } else {
        Result::Ok(r.pids@.take(min_int(r.bytes_written as int / PID_BYTES as int, r.pids@.len() as int)))
    }
}

/// Turns a process enumeration reply into the list of live process
/// identifiers.
///
/// A failed call is the one fatal error of the pipeline and surfaces the
/// operating system's last-error code; a successful call that wrote
/// nothing is an empty list, which is success.  Entries beyond the
/// reported bytes written are dropped, never invented.
pub fn get_all_procs(r: &PidsReply) -> (out: Result<Vec<u32>, SnapError>)
    ensures
        (match (out, pids_result_of(*r)) {
            (Result::Ok(v), Result::Ok(s)) => v@ == s,
            (Result::Err(e), Result::Err(e2)) => e == e2,
            _ => false,
        }),
{
    if !r.ok {
        Err(SnapError::OsEnumerationFailed(r.os_error))
    } else {
        let count = ((r.bytes_written / PID_BYTES) as usize);
        let n = if count < r.pids.len() {
            count
        } else {
            r.pids.len()
        };
        Ok(copy_prefix(&r.pids, n))
    }
}

} // verus!
