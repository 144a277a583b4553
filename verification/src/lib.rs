//! Monitor-aware workspace addressing and reactive handlers for a tiling
//! compositor: a codec that packs a (monitor ordinal, local workspace) pair
//! into one compositor-wide workspace identifier, a ring of monitors ordered
//! by physical position with wraparound neighbours, a hot-plug binder that
//! plans workspace bindings for a newly attached monitor, and a status
//! emitter for an external bar.
//!
//! All IPC with the compositor (queries, dispatches, the event stream) is
//! left to the surrounding program; this crate computes what to dispatch.

use vstd::prelude::*;

pub mod bar;
pub mod binder;
pub mod codec;
pub mod command;
pub mod ring;

verus! {

/// Everything that can go wrong while planning or dispatching a command.
#[derive(Clone, Copy, Debug, PartialEq, Eq, Structural)]
pub enum Error {
    /// The live monitor list could not be enumerated.
    QueryFailure,
    /// The target monitor is absent from the current snapshot.
    MonitorNotFound,
    /// The compositor rejected or could not run a command.
    DispatchFailure,
    /// A workspace address lies outside the supported numeric range.
    InvalidWorkspace,
}

} // verus!
