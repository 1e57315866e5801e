//! A verified core for a per-application audio mixer: it models the sessions
//! an audio subsystem exposes, keeps a tracked-session map in step with the
//! listener registrations made for them, decides what each subsystem callback
//! publishes, plans volume and mute mutations over an enumeration, resolves
//! process names from a system snapshot, and drives the per-connection
//! protocol of a gateway toward an external agent. The subsystem, the
//! consumer of the events, and the network are reached only by the
//! surrounding program; this crate holds the decisions and proves them.

pub mod bridge;
pub mod events;
pub mod gateway;
pub mod listener;
pub mod monitor;
pub mod query;
pub mod resolver;
pub mod session;

pub use session::SessionStatePayload;
