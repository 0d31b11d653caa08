//! Platform integration for a retained-mode UI toolkit: scale reconciliation,
//! input translation, the per-frame update protocol and the lifecycle of
//! GPU-backed render surfaces, as verified decision logic.

pub mod application;
pub mod backend;
pub mod command;
pub mod d3d;
pub mod gl;
pub mod guarantees;
pub mod input;
pub mod native;
pub mod scale;
pub mod surface;
pub mod units;
