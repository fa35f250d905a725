//! Sizing, isolation-hierarchy and coordination logic for running one
//! WebAssembly command in many isolated replicas on a single host.

pub mod args;
pub mod decimal;
pub mod path;
pub mod probe;
pub mod controllers;
pub mod hierarchy;
pub mod engine;
pub mod broadcast;
pub mod worker;
pub mod orchestrator;
