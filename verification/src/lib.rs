//! Request governance engine: proposal lifecycle, policy-driven quorum
//! evaluation, derived range-scan indexes, and the guarded upgrade pipeline.

pub mod model;
pub mod policy;
pub mod indexes;
pub mod service;
pub mod upgrade;
pub mod config;
pub mod notification;
pub mod controllers;
pub mod blockchains;
pub mod tools;
