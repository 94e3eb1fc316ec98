//! Manifest resolution and verified download planning for a game-asset
//! synchronisation client.
//!
//! The crate holds the decisions of the pipeline: what a manifest response
//! must look like, where each resource is fetched from and stored, how a
//! transfer is verified once its stream ends, and how many transfers may run
//! at once. Network and file access are left to the caller, which feeds the
//! state machines defined here with what it observed.

pub mod download;
pub mod fetch;
pub mod hash;
pub mod locator;
pub mod orchestrator;
pub mod paths;
pub mod progress;
pub mod structs;
pub mod text;
