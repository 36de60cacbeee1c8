use vstd::prelude::*;
use crate::error::SnapError;
use crate::reply::{ModulesReply, NameReply};
use crate::resolver::{base_module_of, decoded_name_of, decode_base_name, select_base_module};

verus! {

/// A least-privilege query handle for one process.
///
/// Wraps the raw handle value the opening primitive returned for `pid`;
/// zero is the null/invalid sentinel.  Opening never fails at the type
/// level: a denied or exited process simply yields an invalid handle,
/// which the caller's policy is to skip.  The wrapper holds either the
/// value the open returned or zero after `close` — never a stale value.
#[derive(Debug)]
pub struct ProcessHandle {
    pub pid: u32,
    pub handle: u64,
}

/// The result that resolving a name through a valid handle amounts to,
/// given the two primitive replies: the base module is selected first,
/// and only when one exists is the name reply decoded.
pub open spec fn resolve_result_of(m: ModulesReply, n: NameReply) -> Result<Seq<char>, SnapError> {
    match base_module_of(m) {
        Result::Err(e) => Result::Err(e),
        Result::Ok(_) => decoded_name_of(n),
    }
}

impl ProcessHandle {
    /// Wraps the raw handle value that the opening primitive returned
    /// for `pid` (zero when the open failed).
    pub fn open(pid: u32, raw: u64) -> (h: Self)
        ensures
            h.pid == pid,
            h.handle == raw,
    {
        ProcessHandle { pid, handle: raw }
    }

    /// Whether the wrapped handle is open (non-null).
    pub fn is_valid(&self) -> (b: bool)
        ensures
            b == (self.handle != 0),
    {
        self.handle != 0
    }

    /// Releases the handle: idempotent, and a no-op on an invalid
    /// handle.  Returns the raw value the caller must hand to the
    /// closing primitive (zero when nothing is to be closed); the
    /// wrapper itself never exposes the released value again.
    pub fn close(&mut self) -> (raw: u64)
        ensures
            final(self).handle == 0,
            final(self).pid == old(self).pid,
            raw == old(self).handle,
    {
        let raw = self.handle;
        self.handle = 0;
        raw
    }

    /// Resolves this process's base module name from the two primitive
    /// replies: the module enumeration for this process, and the name
    /// lookup made against the module this function selects.
    ///
    /// Requires a valid handle: asking for the name of a process that
    /// was never opened is a caller error, not an empty-string success.
    /// On success the name is never empty.
    pub fn name(&self, modules: &ModulesReply, base_name: &NameReply) -> (out: Result<String, SnapError>)
        requires
            self.handle != 0,
        ensures
            (match (out, resolve_result_of(*modules, *base_name)) {
                (Result::Ok(s), Result::Ok(cs)) => s@ == cs && s@.len() > 0,
                (Result::Err(e), Result::Err(e2)) => e == e2,
                _ => false,
            }),
    {
        match select_base_module(modules) {
            Err(e) => Err(e),
            Ok(_base) => decode_base_name(base_name),
        }
    }
}

} // verus!
