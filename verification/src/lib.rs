//! # rsmf
//!
//! The integer side of Resonant Stratified Manifold Flow (RSMF): model
//! architecture descriptors, parameter and memory accounting, device
//! topologies, the VRAM budget allocator, spectral sharding plans, the
//! IEEE 754 half-precision bit codec used by ternary adapters and the
//! registry of a session's models.
pub mod model_config;
pub mod config;
pub mod topology;
pub mod budget;
pub mod ternary;
pub mod shard;
pub mod commands;
pub mod params;
pub mod memory;
pub mod registry;
