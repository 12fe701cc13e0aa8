//! Health checking: a service that answers is a service that serves.

use vstd::prelude::*;

verus! {

/// What a health check can report.
#[derive(Debug, Clone, Copy, PartialEq, Eq, Structural)]
pub enum ServingStatus {
    /// The status is not known.
    Unknown,
    /// The service answers requests.
    Serving,
    /// The service does not answer requests.
    NotServing,
}

impl ServingStatus {
    /// The number of the status on the wire.
    pub open spec fn number(self) -> i32 {
        match self {
            ServingStatus::Unknown => 0,
            ServingStatus::Serving => 1,
            ServingStatus::NotServing => 2,
        }
    }

    /// The number of the status on the wire.
    pub fn as_i32(self) -> (number: i32)
        ensures
            number == self.number(),
    {
        match self {
            ServingStatus::Unknown => 0,
            ServingStatus::Serving => 1,
            ServingStatus::NotServing => 2,
        }
    }
}

/// The port the health check listens on where the configuration names none.
pub const DEFAULT_HEALTH_PORT: u16 = 8081;

/// Health check service implementation.
#[derive(Debug, Clone)]
pub struct HealthService;

impl HealthService {
    /// Creates a new health service.
    #[must_use]
    pub fn new() -> (service: Self)
        ensures
            service == HealthService,
    {
        Self
    }

    /// Checks the named service. The answer is always `Serving`: whoever
    /// gets an answer has reached a healthy process.
    pub fn check(&self, service: &str) -> (status: ServingStatus)
        ensures
            status == ServingStatus::Serving,
    {
        ServingStatus::Serving
    }
}

impl Default for HealthService {
    fn default() -> (service: Self)
        ensures
            service == HealthService,
    {
        Self::new()
    }
}

} // verus!
