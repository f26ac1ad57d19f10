//! The liveness probe: succeeds whenever the service can answer at all.

use vstd::prelude::*;

use crate::errors::ApplicationError;

verus! {

pub struct HealthCheckUseCase;

impl HealthCheckUseCase {
    pub fn new() -> (r: Self) {
        HealthCheckUseCase
    }

    /// Always succeeds.
    pub fn execute(&self) -> (r: Result<(), ApplicationError>)
        ensures
            r is Ok,
    {
        Ok(())
    }
}

} // verus!
