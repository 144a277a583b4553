//! One-shot command planning: what a single `workspace focus` or
//! `workspace move` invocation must dispatch, computed from a fresh
//! monitor snapshot.

use vstd::prelude::*;

use crate::codec::composite;
use crate::codec::encode;
use crate::codec::valid_local;
use crate::codec::valid_ordinal;
use crate::ring::find_index;
use crate::ring::MonitorRing;
use crate::Error;

verus! {

/// The composite workspace identifier that `workspace focus <n>` and
/// `workspace move <n>` must dispatch: the local number scoped by the
/// active monitor's ring ordinal — the bare local number when that ordinal
/// is 0. Fails with `MonitorNotFound` when the active monitor is absent
/// from the snapshot (an invariant violation, not a normal error), and
/// with `InvalidWorkspace` when the address lies outside the supported
/// range.
pub fn workspace_target(ring: &MonitorRing, active_id: i64, local: u8) -> (r: Result<u8, Error>)
    ensures
        r matches Ok(id) ==> {
            let i = find_index(ring@, active_id as int);
            &&& i >= 0
            &&& valid_local(local as int)
            &&& valid_ordinal(MonitorRing::ordinal_at(ring@, i))
            &&& id as int == composite(MonitorRing::ordinal_at(ring@, i), local as int)
        },
        r is Ok <==> (find_index(ring@, active_id as int) >= 0 && valid_ordinal(
            MonitorRing::ordinal_at(ring@, find_index(ring@, active_id as int)),
        ) && valid_local(local as int)),
        r matches Err(e) ==> if find_index(ring@, active_id as int) == -1 {
            e == Error::MonitorNotFound
        } else {
            e == Error::InvalidWorkspace
        },
{
    let ordinal = match ring.ordinal_of_id(active_id) {
        Ok(o) => o,
        Err(e) => {
            return Err(e);
        },
    };
    encode(ordinal, local)
}

} // verus!
