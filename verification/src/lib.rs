//! Verified core of the code-execution runtime service and its gateway.

pub mod auth;
pub mod executor;
pub mod gateway;
pub mod jobs;
pub mod metrics;
pub mod outside;
pub mod service;
pub mod text;
pub mod types;
pub mod webhook;
