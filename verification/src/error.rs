use vstd::prelude::*;

verus! {

/// Errors of the snapshot pipeline.
///
/// Every variant carries the operating system's last-error code, read at
/// the failing call site before any later call can overwrite it.
#[derive(Clone, Copy, Debug, PartialEq, Eq, Structural)]
pub enum SnapError {
    /// The initial process-identifier enumeration failed.  This is the
    /// one fatal error: it aborts the whole snapshot.
    OsEnumerationFailed(u32),
    /// A process reported no resolvable modules (the module enumeration
    /// failed or returned an empty list).  Per-process, non-fatal.
    NoModules(u32),
    /// The base module could not be resolved to a name (the name primitive
    /// reported zero bytes written).  Per-process, non-fatal.
    NameResolutionFailed(u32),
}

} // verus!
