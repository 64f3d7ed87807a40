//! A per-request access-control decision engine: every request is checked
//! against identity, device posture, least privilege, time of access and
//! aggregated contextual risk before a session token is issued.

pub mod decision;
pub mod directory;
pub mod engine;
pub mod entity;
pub mod policy;
pub mod risk;
pub mod token;
