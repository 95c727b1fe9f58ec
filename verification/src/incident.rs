//! The incident data model and the record builder that assembles the
//! canonical incident from a validated submission and an assigned identifier.

use vstd::prelude::*;

verus! {

/// A creation request as it reaches the core, already parsed: a name and a
/// priority on the submission-facing scale. It lives for one request only.
pub struct IncidentSubmission {
    pub incidentname: String,
    pub priority: u64,
}

/// The canonical incident record: returned to the caller and sent upstream on
/// every create and update call of a request. Built once per request and
/// never mutated afterwards. The upstream-facing priority field keeps its
/// historical spelling `priorty` for wire compatibility with existing
/// consumers.
pub struct Incident {
    pub id: u64,
    pub priorty: u64,
    pub incidentname: String,
}

/// The identifier source policy: a fixed constant, not drawn from any counter
/// or upstream response. Callers must not rely on it for uniqueness.
pub const ASSIGNED_INCIDENT_ID: u64 = 10;

/// The identifier the service assigns to a new incident. It does not depend
/// on the submission: every request is assigned the same placeholder.
pub open spec fn spec_assigned_id() -> int {
    ASSIGNED_INCIDENT_ID as int
}

/// Draw an identifier for a newly built incident from the identifier source.
pub fn assigned_incident_id() -> (r: u64)
    ensures
        r as int == spec_assigned_id(),
{
    ASSIGNED_INCIDENT_ID
}

/// Assemble the canonical incident record: pure construction, no failure
/// mode. The name carries over unchanged, the identifier and the already
/// inverted priority are taken as given.
pub fn build_incident(
    submission: IncidentSubmission,
    assigned_id: u64,
    inverted_priority: u64,
) -> (r: Incident)
    ensures
        r.id == assigned_id,
        r.priorty == inverted_priority,
        r.incidentname@ == submission.incidentname@,
{
    Incident { id: assigned_id, priorty: inverted_priority, incidentname: submission.incidentname }
}

/// The identifier of the incident built for a submission with the given name
/// and priority. The identifier source ignores both: it is a fixed
/// placeholder.
pub open spec fn spec_incident_id(name: Seq<char>, priority: int) -> int {
    spec_assigned_id()
}

/// Law: repeating an identical submission produces an incident with the same
/// identifier — indeed any two submissions do, since the identifier source is
/// a fixed constant. This non-uniqueness is a deliberate boundary contract.
pub proof fn lemma_incident_id_idempotent(
    name: Seq<char>,
    priority: int,
    other_name: Seq<char>,
    other_priority: int,
)
    ensures
        spec_incident_id(name, priority) == spec_incident_id(other_name, other_priority),
{
}

} // verus!
