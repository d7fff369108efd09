//! The reconciliation status that the loop publishes, and the health derived from it.
use vstd::prelude::*;

verus! {

/// Outcome of the most recent reconciliation tick.
#[derive(Debug, PartialEq)]
pub enum DnsStatus {
    /// The last resolution succeeded.
    Resolved,
    /// The last resolution failed; the known endpoints were left as they were.
    ResolutionError { details: String },
    /// The sink was closed by its consumer and the loop has exited for good.
    Stopped,
}

impl Clone for DnsStatus {
    fn clone(&self) -> (r: Self)
        ensures
            r == *self,
    {
        match self {
            DnsStatus::Resolved => DnsStatus::Resolved,
            DnsStatus::ResolutionError { details } => DnsStatus::ResolutionError {
                details: details.clone(),
            },
            DnsStatus::Stopped => DnsStatus::Stopped,
        }
    }
}

impl DnsStatus {
    /// The status that reports a failed resolution, with a readable cause.
    pub fn resolution_error(details: String) -> (r: Self)
        ensures
            r == (DnsStatus::ResolutionError { details }),
    {
        DnsStatus::ResolutionError { details }
    }

    /// Whether this status reports a failed resolution.
    pub fn is_error(&self) -> (r: bool)
        ensures
            r == (*self is ResolutionError),
    {
        match self {
            DnsStatus::ResolutionError { .. } => true,
            _ => false,
        }
    }
}

/// Coarse health of the endpoint pool.
#[derive(Clone, Copy, Debug, PartialEq, Eq, Structural)]
pub enum Health {
    /// There is at least one endpoint and the last resolution succeeded.
    Healthy,
    /// The last resolution failed, but earlier endpoints are still installed,
    /// so calls may still succeed.
    Undetermined,
    /// There are no endpoints: calls wait until one is found.
    Broken,
}

/// Health as a function of the published endpoint count and status alone.
pub open spec fn health_spec(count: nat, status: DnsStatus) -> Health {
    if count == 0 {
        Health::Broken
    } else if status is ResolutionError {
        Health::Undetermined
    } else {
        Health::Healthy
    }
}

impl Health {
    /// Classifies the pool from the endpoint count and the latest status.
    pub fn of(count: usize, status: &DnsStatus) -> (r: Health)
        ensures
            r == health_spec(count as nat, *status),
            count == 0 ==> r == Health::Broken,
            count > 0 && *status is ResolutionError ==> r == Health::Undetermined,
            count > 0 && !(*status is ResolutionError) ==> r == Health::Healthy,
    {
        if count == 0 {
            Health::Broken
        } else if status.is_error() {
            Health::Undetermined
        } else {
            Health::Healthy
        }
    }
}

} // verus!
