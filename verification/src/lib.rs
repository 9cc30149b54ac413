//! Core of a 2D physics arena: a player-controlled body steered by thrust and
//! torque inside a walled square playfield full of bouncing balls, where every
//! collision onset toggles the tint of the tagged bodies involved.
//!
//! This crate holds the simulation decisions only: the fixed key-to-intent
//! mapping, the per-tick force model, the arena geometry, the body registry
//! and the collision-driven tint protocol. The surrounding engine (windowing,
//! rendering, rigid-body integration) supplies events and opaque handles and
//! carries the results back out; it lives outside this crate.
//!
//! Quantities that the engine treats as fractional (forces, torques,
//! restitution) are carried here in hundredths, as exact integers.

pub mod arena;
pub mod control;
pub mod geom;
pub mod input;
pub mod reactor;
pub mod world;
