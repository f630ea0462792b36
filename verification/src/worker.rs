//! A worker of a proving service, as the service's balancer sees it.
//!
//! A worker is known by the address of its endpoint. Whether it is free to
//! take a request is a flag of its own; whether it is alive is found out by
//! a health check, whose answer is judged here. Two workers are the same
//! worker exactly when their addresses are the same.

use vstd::prelude::*;
use vstd::std_specs::cmp::{PartialEqSpec, PartialEqSpecImpl};

verus! {

/// What a worker's health service says of the worker.
#[derive(Clone, Copy, Debug, PartialEq, Eq, Structural)]
pub enum ServingStatus {
    Unknown,
    Serving,
    NotServing,
    ServiceUnknown,
}

/// How a health check ended.
#[derive(Clone, Copy, Debug, PartialEq, Eq, Structural)]
pub enum HealthCheck {
    /// The worker answered with its status.
    Answered(ServingStatus),
    /// The call failed: no answer came back.
    Failed,
}

/// A worker that processes proving requests.
#[derive(Clone, Debug)]
pub struct Worker {
    address: String,
    is_available: bool,
}

impl Worker {
    /// The address of the worker's endpoint.
    pub closed spec fn endpoint(&self) -> Seq<char> {
        self.address@
    }

    /// Whether the worker is free to take a request.
    pub closed spec fn available(&self) -> bool {
        self.is_available
    }

    /// A worker at the given address. A new worker is available.
    pub fn new(address: String) -> (worker: Worker)
        ensures
            worker.endpoint() == address@,
            worker.available(),
    {
        Worker { address, is_available: true }
    }

    /// The address of the worker's endpoint.
    pub fn address(&self) -> (address: String)
        ensures
            address@ == self.endpoint(),
    {
        self.address.clone()
    }

    /// Judges a health check: the worker is healthy exactly when it answered
    /// that it is serving. A failed check counts as unhealthy.
    pub fn is_healthy(&self, check: HealthCheck) -> (healthy: bool)
        ensures
            healthy == (check == HealthCheck::Answered(ServingStatus::Serving)),
    {
        match check {
            HealthCheck::Answered(status) => status == ServingStatus::Serving,
            HealthCheck::Failed => false,
        }
    }

    /// Whether the worker is free to take a request.
    pub fn is_available(&self) -> (available: bool)
        ensures
            available == self.available(),
    {
        self.is_available
    }

    /// Marks the worker as free or as busy. Its address stays.
    pub fn set_availability(&mut self, is_available: bool)
        ensures
            final(self).available() == is_available,
            final(self).endpoint() == old(self).endpoint(),
    {
        self.is_available = is_available;
    }
}

impl PartialEq for Worker {
    fn eq(&self, other: &Self) -> (equal: bool) {
        self.address == other.address
    }
}

impl PartialEqSpecImpl for Worker {
    open spec fn obeys_eq_spec() -> bool {
        true
    }

    open spec fn eq_spec(&self, other: &Worker) -> bool {
        self.endpoint() == other.endpoint()
    }
}

/// Whether two workers are the same worker.
pub fn same_worker(a: &Worker, b: &Worker) -> (same: bool)
    ensures
        same == (a.endpoint() == b.endpoint()),
{
    a == b
}

/// Two workers are equal exactly when their addresses are equal, whatever
/// their availability.
pub proof fn equality_is_by_address(a: Worker, b: Worker)
    ensures
        PartialEqSpec::eq_spec(&a, &b) <==> a.endpoint() == b.endpoint(),
{
}

} // verus!
