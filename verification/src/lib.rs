//! Core rules of the ZooHelp backend: process roles, configuration
//! loading and production guardrails, administrator bootstrap, and the
//! identity payload checks and response shaping, each with a contract.

pub mod text;
pub mod number;
pub mod process_role;
pub mod config;
pub mod account;
pub mod auth;
pub mod validation;
pub mod session;
pub mod profile;
pub mod bootstrap;
pub mod rate_limits;
pub mod flows;
