//! Verified core of a process snapshot tool: enumerate live process
//! identifiers, open a query handle per process, resolve each process's
//! base module name, and collect the successes into a snapshot.
//!
//! The operating-system primitives themselves (enumerate processes,
//! open/close a handle, enumerate modules, read a module's base name) are
//! performed by an unverified driver; every decision taken on their
//! replies — buffer truncation, error classification, the skip-or-record
//! policy per process, and the handle open/close discipline — lives here
//! and is verified.

pub mod builder;
pub mod enumerate;
pub mod error;
pub mod handle;
pub mod record;
pub mod reply;
pub mod resolver;
