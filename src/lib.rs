//! Provisioning core for a four-level tenant hierarchy
//! (customer, organization, institution, organization unit).
//!
//! The create and remove flows are written as state machines: each step takes
//! the result of the previous outside operation (lock, repository, role
//! provider, cache, event stream, cleanup queue) and names the next operation
//! to perform. The driver that performs the operations lives outside the
//! verified library.
pub mod error;
pub mod model;
pub mod access;
pub mod user;
pub mod create;
pub mod remove;
pub mod customer;
pub mod institution;
