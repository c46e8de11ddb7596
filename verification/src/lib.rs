//! Core logic of a DNS-record reconciliation controller.
//!
//! The library holds everything the controller decides or computes: the
//! caching provider client's cache and upsert planning, the zone/value and
//! content resolvers, the Ready-condition tracker, the reconcile state
//! machine, and the DNS propagation checker's match-state tracking.  The
//! surrounding process (orchestrator watches, HTTP transport, DNS queries)
//! hands plain values in and carries the decided actions out.

pub(crate) mod clock;
pub mod cloudflare;
pub mod conditions;
pub mod dns_check;
pub mod lookup;
pub mod reconcile;
pub mod records;
pub mod resources;
pub mod services;
pub mod values;
