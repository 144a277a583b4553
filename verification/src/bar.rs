//! Bar status emitter: routes workspace events into status records for an
//! external bar process.
//!
//! The emitter captures one watched (display, workspace) pair at startup
//! and computes its target composite once. Each delivered regular event
//! produces one record — selected exactly when the event addresses the
//! watched composite; special (scratchpad) workspaces produce nothing.
//! Rendering and writing the records is the surrounding program's work.

use vstd::prelude::*;

use crate::codec::composite;
use crate::codec::encode;
use crate::codec::valid_local;
use crate::codec::valid_ordinal;
use crate::Error;

verus! {

/// A compositor workspace event, as the emitter distinguishes them.
#[derive(Clone, Copy, Debug, PartialEq, Eq, Structural)]
pub enum WorkspaceEvent {
    /// A regular workspace, carrying its global numeric identifier.
    Regular(i64),
    /// A named/scratchpad workspace; never shown by the emitter.
    Special,
}

/// One status record for the bar: the watched local workspace number and
/// whether the event addressed exactly the watched composite.
#[derive(Clone, Copy, Debug, PartialEq, Eq, Structural)]
pub struct BarRecord {
    pub workspace: u8,
    pub selected: bool,
}

/// The read-only configuration a bar emitter captures at startup.
#[derive(Clone, Copy, Debug)]
pub struct BarConfig {
    pub display: u8,
    pub workspace: u8,
    pub target: u8,
}

impl BarConfig {
    /// The target identifier is the composite of the watched pair, and the
    /// pair lies in the addressable range.
    pub open spec fn wf(&self) -> bool {
        &&& valid_ordinal(self.display as int)
        &&& valid_local(self.workspace as int)
        &&& self.target as int == composite(self.display as int, self.workspace as int)
    }

    /// Captures the watched (display, workspace) pair and computes the
    /// target composite once; fails exactly when the pair lies outside the
    /// addressable range.
    pub fn new(display: u8, workspace: u8) -> (r: Result<BarConfig, Error>)
        ensures
            r is Ok <==> valid_ordinal(display as int) && valid_local(workspace as int),
            r matches Ok(c) ==> c.wf() && c.display == display && c.workspace == workspace,
            r matches Err(e) ==> e == Error::InvalidWorkspace,
    {
        let target = match encode(display, workspace) {
            Ok(t) => t,
            Err(e) => {
                return Err(e);
            },
        };
        Ok(BarConfig { display, workspace, target })
    }

    /// Routes one delivered event. A special workspace produces no output;
    /// a regular one produces exactly one record, selected precisely when
    /// the event's identifier equals the watched composite.
    pub fn handle(&self, event: &WorkspaceEvent) -> (r: Option<BarRecord>)
        requires
            self.wf(),
        ensures
            r is None <==> event is Special,
            event matches WorkspaceEvent::Regular(id) ==> r matches Some(rec)
                && rec.workspace == self.workspace
                && (rec.selected <==> id as int == composite(
                    self.display as int,
                    self.workspace as int,
                )),
    {
        match event {
            WorkspaceEvent::Regular(id) => Some(
                BarRecord { workspace: self.workspace, selected: *id == self.target as i64 },
            ),
            WorkspaceEvent::Special => None,
        }
    }
}

} // verus!
