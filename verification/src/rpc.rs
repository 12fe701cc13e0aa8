//! The attestation service and the rules it applies.

pub mod attestor;
pub mod batch;
pub mod commitment;
pub mod finality;
pub mod health;
