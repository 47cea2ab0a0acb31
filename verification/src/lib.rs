//! A function service with isolated execution contexts, and the differential comparison of
//! several backends that offer it.
//!
//! The service keeps a registry of functions ([`registry`]) and a store of execution
//! contexts ([`context`]); the dispatcher ([`dispatch`]) runs one function in one context,
//! and the façade ([`server`]) answers the five operations of the protocol. On the other
//! side, the driver ([`driver`]) takes one test case through one backend, the comparator
//! ([`comparator`]) judges what the backends answered, and the orchestrator ([`suite`])
//! sums a run up. What holds of all of them is stated in [`laws`].

pub mod clock;
pub mod comparator;
pub mod context;
pub mod dispatch;
pub mod driver;
pub mod json;
pub mod laws;
pub mod registry;
pub mod server;
pub mod string_map;
pub mod suite;
pub mod text;

pub use crate::context::ExecutionContext;
pub use crate::server::TranspileTestServer;
