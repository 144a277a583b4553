//! Reactive binder: the reaction to a monitor-attached event.
//!
//! On attach, the surrounding listener re-queries the live monitors, builds
//! a fresh ring, and opens a [`BinderSession`]: nine binding requests (one
//! per local workspace) followed by one activation request for local
//! workspace 1. The listener dispatches the requests one by one and records
//! each outcome; a failed dispatch is recorded like a success, so the
//! remaining requests are still attempted — best effort, not atomic.

use vstd::prelude::*;

use crate::codec::composite;
use crate::codec::encode;
use crate::codec::valid_ordinal;
use crate::ring::find_index_by_name;
use crate::ring::MonitorRing;
use crate::Error;

verus! {

/// One request for the compositor: bind local workspace `local` of the
/// monitor named `monitor` to the composite identifier `composite` — or,
/// when `activation` is set, switch that monitor to the composite so it
/// starts in a usable state.
#[derive(Debug)]
pub struct BindingRequest {
    pub monitor: String,
    pub local: u8,
    pub composite: u8,
    pub activation: bool,
}

/// The mathematical image of a [`BindingRequest`].
pub struct BindingRequestV {
    pub monitor: Seq<char>,
    pub local: int,
    pub composite: int,
    pub activation: bool,
}

impl View for BindingRequest {
    type V = BindingRequestV;

    open spec fn view(&self) -> BindingRequestV {
        BindingRequestV {
            monitor: self.monitor@,
            local: self.local as int,
            composite: self.composite as int,
            activation: self.activation,
        }
    }
}

impl Clone for BindingRequest {
    fn clone(&self) -> (r: Self)
        ensures
            r@ == self@,
    {
        BindingRequest {
            monitor: self.monitor.clone(),
            local: self.local,
            composite: self.composite,
            activation: self.activation,
        }
    }
}

/// The request that addresses local workspace `local` of the monitor named
/// `name`, whose resolved ring ordinal is `ordinal`.
pub open spec fn request_for(name: Seq<char>, ordinal: int, local: int, activation: bool) -> BindingRequestV {
    BindingRequestV {
        monitor: name,
        local: local,
        composite: composite(ordinal, local),
        activation: activation,
    }
}

/// The image of a [`BinderSession`]: the planned requests and how many of
/// them have been attempted so far.
pub struct BinderSessionV {
    pub requests: Seq<BindingRequestV>,
    pub pos: int,
}

/// One reaction to a monitor-attached event: the full set of requests,
/// handed out one at a time. The plan is fixed when the session opens and
/// never changes afterwards.
#[derive(Debug)]
pub struct BinderSession {
    requests: Vec<BindingRequest>,
    pos: usize,
}

impl View for BinderSession {
    type V = BinderSessionV;

    closed spec fn view(&self) -> BinderSessionV {
        BinderSessionV {
            requests: self.requests@.map_values(|r: BindingRequest| r@),
            pos: self.pos as int,
        }
    }
}

/// Recording an outcome consumes exactly one request; the outcome itself
/// changes nothing about the plan.
pub open spec fn session_step(s: BinderSessionV, success: bool) -> BinderSessionV {
    BinderSessionV { requests: s.requests, pos: s.pos + 1 }
}

/// The session state after a whole sequence of recorded outcomes.
pub open spec fn session_run(s: BinderSessionV, results: Seq<bool>) -> BinderSessionV
    decreases results.len(),
{
    if results.len() == 0 {
        s
    } else {
        session_run(session_step(s, results[0]), results.drop_first())
    }
}

/// Failure isolation: however the individual dispatches fare, the plan is
/// never cut short. After any sequence of recorded outcomes the session
/// still holds every planned request and stands exactly that many steps
/// further along — so a failed binding leaves every later binding and the
/// final activation still to be attempted.
pub proof fn lemma_failure_isolation(s: BinderSessionV, results: Seq<bool>)
    ensures
        session_run(s, results).requests == s.requests,
        session_run(s, results).pos == s.pos + results.len(),
    decreases results.len(),
{
    if results.len() > 0 {
        lemma_failure_isolation(session_step(s, results[0]), results.drop_first());
    }
}

impl BinderSession {
    /// A well-formed session has attempted no more than it planned.
    pub open spec fn wf(&self) -> bool {
        self@.pos <= self@.requests.len()
    }

    /// Opens the reaction to a monitor-attached event, against a ring
    /// built from a fresh post-attach snapshot. The plan holds the nine
    /// binding requests for local workspaces 1..9 followed by the
    /// activation request for local workspace 1, all addressed by the
    /// named monitor's resolved ring ordinal. Fails with
    /// `MonitorNotFound` when the name is absent from the snapshot and
    /// with `InvalidWorkspace` when the ordinal lies beyond the 9 the
    /// codec can address; either failure is isolated to this reaction.
    pub fn begin(ring: &MonitorRing, name: &String) -> (r: Result<BinderSession, Error>)
        ensures
            r matches Ok(s) ==> {
                let i = find_index_by_name(ring@, name@);
                let o = MonitorRing::ordinal_at(ring@, i);
                &&& i >= 0
                &&& valid_ordinal(o)
                &&& s.wf()
                &&& s@.pos == 0
                &&& s@.requests.len() == 10
                &&& forall|k: int|
                    0 <= k < 9 ==> s@.requests[k] == request_for(name@, o, k + 1, false)
                &&& s@.requests[9] == request_for(name@, o, 1, true)
            },
            r is Ok <==> (find_index_by_name(ring@, name@) >= 0 && valid_ordinal(
                MonitorRing::ordinal_at(ring@, find_index_by_name(ring@, name@)),
            )),
            r matches Err(e) ==> if find_index_by_name(ring@, name@) == -1 {
                e == Error::MonitorNotFound
            } else {
                e == Error::InvalidWorkspace
            },
    {
        let ordinal = match ring.ordinal_of_name(name) {
            Ok(o) => o,
            Err(e) => {
                return Err(e);
            },
        };
        let mut requests: Vec<BindingRequest> = Vec::new();
        let mut local: u8 = 1;
        while local <= 9
            invariant
                1 <= local <= 10,
                valid_ordinal(ordinal as int),
                requests@.len() == local - 1,
                forall|k: int|
                    0 <= k < local - 1 ==> (#[trigger] requests@[k])@ == request_for(
                        name@,
                        ordinal as int,
                        k + 1,
                        false,
                    ),
            decreases 10 - local,
        {
            let c = match encode(ordinal, local) {
                Ok(c) => c,
                Err(e) => {
                    return Err(e);
                },
            };
            requests.push(
                BindingRequest { monitor: name.clone(), local, composite: c, activation: false },
            );
            local += 1;
        }
        let c = match encode(ordinal, 1) {
            Ok(c) => c,
            Err(e) => {
                return Err(e);
            },
        };
        requests.push(
            BindingRequest { monitor: name.clone(), local: 1, composite: c, activation: true },
        );
        Ok(BinderSession { requests, pos: 0 })
    }

    /// The next request to attempt, if any remain.
    pub fn pending(&self) -> (r: Option<BindingRequest>)
        requires
            self.wf(),
        ensures
            r matches Some(req) ==> self@.pos < self@.requests.len() && req@
                == self@.requests[self@.pos],
            r is None <==> self@.pos == self@.requests.len(),
    {
        if self.pos < self.requests.len() {
            Some(self.requests[self.pos].clone())
        } else {
            None
        }
    }

    /// Records the outcome of the pending request's dispatch and moves on.
    /// Success and failure advance alike: a failure is the caller's to log,
    /// never a reason to abandon the rest of the plan.
    pub fn record(&mut self, success: bool)
        requires
            old(self).wf(),
            old(self)@.pos < old(self)@.requests.len(),
        ensures
            final(self)@ == session_step(old(self)@, success),
            final(self).wf(),
    {
        proof {
            vstd::std_specs::vec::axiom_spec_len(&self.requests);
            assert(self@.requests.len() == self.requests@.len());
        }
        self.pos = self.pos + 1;
    }
}

} // verus!
