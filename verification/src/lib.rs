//! Convergence logic of the Shazamq cluster operator: the resource schema, the
//! synthesis of subordinate object descriptors, the status projection and the
//! step-by-step reconciliation engine.

pub mod config;
pub mod config_lines;
pub mod crd;
pub mod descriptors;
pub mod engine;
pub mod labels;
pub mod lines;
pub mod status;
pub mod synth;
pub mod text;
