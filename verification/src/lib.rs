//! Core logic of a 2D train-management game: a locomotive advances along a
//! procedurally generated route, stopping at towns or goblin ambushes, while
//! the player places buildings, manages inventories of resources, and signs
//! delivery contracts that are settled when their expiry stop is reached.
//!
//! The crate holds the world/stop generation, the contract economy, the
//! inventory and production bookkeeping, and the build-placement snapping
//! rules. Rendering, UI layout and input polling are an engine's business and
//! stay outside; randomness comes from a seeded ChaCha stream so that a whole
//! run can be replayed from its seed.

pub mod contracts;
pub mod items;
pub mod ledger;
pub mod placement;
pub mod rng;
pub mod session;
pub mod train;
pub mod ui;
pub mod world;
