//! Light client synchronization.
//!
//! This decides how the header chain is synchronized. Dataflow is largely one-directional as headers
//! are pushed into the light client queue for import. Where possible, they are batched in groups.
//!
//! Sync strategy:
//! - Find a common ancestor with peers.
//! - Sync in rounds from there to the best block seen.
//! - On bad block/response, punish peer and reset.
//!
//! The client that imports headers, the network that carries requests and the rounds are driven from
//! outside. [`LightSync`] takes in what they report and says what they are to do next:
//! - [`events`]: what the network reports, and what synchronization makes of it.
//! - [`maintain`]: sync maintenance, one piece of outside work at a time.
//! - [`laws`], [`decisions`], [`runs`]: what holds of what is known, of each turn of maintenance and of
//!   whole runs.
pub mod ancestor;
pub mod chain;
pub mod decisions;
pub mod dispatch;
pub mod events;
pub mod info;
pub mod laws;
pub mod light_sync;
pub mod maintain;
pub mod peers;
pub mod primitives;
mod rng;
pub mod runs;
pub mod state;

pub use info::SyncInfo;
pub use light_sync::LightSync;
