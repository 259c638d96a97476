//! Node-local synchronization core for a decentralized feed-sharing node.
//!
//! The node replicates short text posts among peers over a publish/subscribe
//! overlay and exposes the replicated state to local client sessions. This
//! crate holds the part that must be race-free, idempotent under duplicate
//! delivery, and bounded in memory: a deduplicated, bounded feed store; an
//! edge-triggered peer directory; the event router that merges overlay
//! traffic, local submissions and reconnection ticks into one decision path;
//! the reconnection supervisor with self-dial suppression; and the per-client
//! session bridge. Transport, discovery and encryption live outside, behind
//! the thin adapters that feed plain values into these components.

pub mod bootstrap;
pub mod directory;
pub mod feed;
pub mod fresh;
pub mod router;
pub mod session;
pub mod state;
pub mod supervisor;
pub mod text;
pub mod types;
