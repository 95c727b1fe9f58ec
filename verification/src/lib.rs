//! Verified core of an incident-ingestion service.
//!
//! The library holds the decision logic of the service: the priority codec
//! that flips the submitted priority onto the upstream scale, the builder of
//! the canonical incident record, the decoding of a remote listing page into
//! the identifiers it carries, and the planner that turns one submission and
//! one listing outcome into the exact sequence of remote writes to issue.
//! The surrounding process (HTTP server, the remote calls themselves) is
//! ordinary unverified code that consumes this library.

pub mod incident;
pub mod listing;
pub mod priority;
pub mod sync;
