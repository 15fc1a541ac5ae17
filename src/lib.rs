//! Playbooks gateway: request shaping, reference selection and the decisions
//! taken between calls to the orchestration and source-control backends.

pub mod errors;
pub mod flow;
pub mod models;
pub mod reference;
pub mod requests;
pub mod services;
