//! The bookkeeping core of a two-dimensional arcade space shooter.
//!
//! The library decides; it never measures. Every coordinate, angle and speed
//! is a value of a scalar type `S` that the host chooses, and the library only
//! routes such values: which directive a brain issues, which message leaves
//! the outbox, who scores, when a ship is dead. The host owns the arithmetic
//! on `S`.

pub mod ai;
pub mod asteroid;
pub mod bus;
pub mod game;
pub mod inputs;
pub mod physics;
pub mod ship;
pub mod spawner;
pub mod storage;
