//! The core of a service that collects killmails for authorized accounts.
//!
//! The library decides and computes; it sends nothing and stores nothing.
//! It builds the requests for the authorization provider and the data API,
//! reads their replies, validates access tokens, extracts the entities that
//! a killmail refers to, and holds the job queue, the processor and the
//! scheduler as state machines that a runtime drives.

pub mod config;
pub mod error;
pub mod esi;
pub mod http;
pub mod json;
pub mod models;
pub mod text;
pub mod time;
