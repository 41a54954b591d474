//! Bridge between a serial scoreboard console protocol and a browser overlay.
//!
//! The library decodes sentinel-framed, checksum-protected byte frames,
//! interprets their fixed-layout payloads into typed game events, folds those
//! events into a game-state snapshot, and renders the snapshot for the
//! overlay's JSON endpoint.

pub mod frame;
pub mod ingest;
pub mod json;
pub mod message;
pub mod shared;
pub mod state;
pub mod text;
pub mod web;
