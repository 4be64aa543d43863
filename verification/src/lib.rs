//! Core logic of a filesystem mediation shim.
//!
//! A host process's calls to the POSIX file-mutation entry points are routed
//! through handlers that may veto the operation (after a synchronous
//! "preflight" exchange with an external controller) and that report
//! completed mutations (asynchronous "notifications").  This crate holds the
//! decision logic of those handlers: the per-thread recursion guard, the
//! per-file-descriptor tracking table, the wire protocol, and the
//! fail-open/fail-closed policy.  The unverifiable surroundings — raw
//! syscalls, symbol interposition, sockets, environment access — live with
//! the embedding program, which feeds their results to these functions as
//! plain values.

pub mod config;
pub mod guard;
pub mod laws;
pub mod protocol;
pub mod steps;
pub mod table;
