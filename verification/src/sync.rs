//! The sync planner: the decision logic of one inbound creation request.
//!
//! One request lists the existing upstream records, builds the canonical
//! incident, creates it upstream, and then issues one update per previously
//! listed identifier, in listing order. The remote calls themselves are I/O
//! and live outside the library; this module takes the outcome of the list
//! call as a value and decides, exactly, what is built and which writes are
//! issued. No outcome of any remote call changes the incident handed back to
//! the caller: the endpoint always reports the request as accepted.

use vstd::prelude::*;

use crate::incident::ASSIGNED_INCIDENT_ID;
use crate::incident::Incident;
use crate::incident::IncidentSubmission;
use crate::incident::assigned_incident_id;
use crate::incident::build_incident;
use crate::incident::spec_incident_id;
use crate::listing::extract_listing_ids;
use crate::listing::listing_ids;
use crate::priority::invert;
use crate::priority::spec_invert;

verus! {

/// How the upstream list call ended: a response body that completed the
/// transport round trip (whatever its status or shape), or a transport
/// failure.
pub enum ListingOutcome {
    Received(String),
    TransportFailed,
}

/// One outbound write against the upstream collection: the creation of the
/// new record, or an update aimed at a previously listed record. Every write
/// of a request carries the same canonical incident as payload; the update's
/// target identifier is recorded here even though the upstream update
/// endpoint is not scoped by it — a boundary limitation of the upstream
/// client that is preserved, not silently fixed.
#[derive(Clone, Copy, Debug, PartialEq, Eq, Structural)]
pub enum RemoteWrite {
    Create,
    Update(u64),
}

/// The full decision of one request: the canonical incident to answer with,
/// and the remote writes to issue, in order.
pub struct SyncPlan {
    pub incident: Incident,
    pub writes: Vec<RemoteWrite>,
}

/// The identifiers a listing outcome yields: those of the received body, and
/// none on a transport failure.
pub open spec fn outcome_ids(listing: ListingOutcome) -> Seq<u64> {
    match listing {
        ListingOutcome::Received(body) => listing_ids(body@),
        ListingOutcome::TransportFailed => Seq::<u64>::empty(),
    }
}

/// The writes a request issues for the given listed identifiers: the create
/// first, always and exactly once, then one update per identifier, in
/// listing order.
pub open spec fn plan_writes(ids: Seq<u64>) -> Seq<RemoteWrite> {
    Seq::new(
        ids.len() + 1,
        |j: int|
            if j == 0 {
                RemoteWrite::Create
            } else {
                RemoteWrite::Update(ids[j - 1])
            },
    )
}

/// Law: whatever the listing yielded, the plan attempts the create exactly
/// once — as its first write — and every other write is an update.
pub proof fn lemma_create_exactly_once(ids: Seq<u64>)
    ensures
        plan_writes(ids).len() == ids.len() + 1,
        plan_writes(ids)[0] is Create,
        forall|j: int| 1 <= j < plan_writes(ids).len() ==> plan_writes(ids)[j] is Update,
{
}

/// Law: a transport failure of the list call leaves the plan with the create
/// alone — zero updates are issued, and the request is still answered.
pub proof fn lemma_transport_failure_no_updates()
    ensures
        plan_writes(outcome_ids(ListingOutcome::TransportFailed)) =~= seq![RemoteWrite::Create],
{
}

/// Decide one request: extract the identifiers the list call yielded (none
/// on a transport failure or a malformed body), flip the submitted priority
/// onto the upstream scale, build the canonical incident under the fixed
/// assigned identifier, and lay out the writes — the create, then one update
/// per listed identifier, in order. Upstream outcomes never change the
/// incident: it is what the caller is answered with, unconditionally.
pub fn plan_sync(submission: IncidentSubmission, listing: ListingOutcome) -> (p: SyncPlan)
    ensures
        p.incident.id as int == spec_incident_id(
            submission.incidentname@,
            submission.priority as int,
        ),
        p.incident.id == ASSIGNED_INCIDENT_ID,
        p.incident.priorty as int == spec_invert(submission.priority as int),
        p.incident.incidentname@ == submission.incidentname@,
        p.writes@ == plan_writes(outcome_ids(listing)),
{
    let ids: Vec<u64> = match &listing {
        ListingOutcome::Received(body) => extract_listing_ids(body.as_str()),
        ListingOutcome::TransportFailed => Vec::new(),
    };
    let inverted_priority = invert(submission.priority);
    let incident = build_incident(submission, assigned_incident_id(), inverted_priority);
    let mut writes: Vec<RemoteWrite> = Vec::new();
    writes.push(RemoteWrite::Create);
    let mut j: usize = 0;
    while j < ids.len()
        invariant
            0 <= j <= ids@.len(),
            writes@.len() == j + 1,
            writes@[0] == RemoteWrite::Create,
            forall|k: int| 1 <= k <= j ==> writes@[k] == RemoteWrite::Update(ids@[k - 1]),
        decreases ids@.len() - j,
    {
        writes.push(RemoteWrite::Update(ids[j]));
        j += 1;
    }
    proof {
        assert(writes@ =~= plan_writes(ids@));
    }
    SyncPlan { incident, writes }
}

} // verus!
