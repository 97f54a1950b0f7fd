//! The arguments that a level file gives for the things it places.

use vstd::prelude::*;

verus! {

/// A ship to place: category, x, y, velocity as (direction, magnitude), and
/// facing.
#[derive(Debug)]
pub struct ShipArgs<S>(pub usize, pub S, pub S, pub (S, S), pub S);

/// An asteroid to place: x, y, radius.
#[derive(Debug)]
pub struct AsteroidArgs<S>(pub S, pub S, pub S);

/// A wall of asteroids: x, y, width, height, and the half-open range
/// `(low, high)` from which each radius is drawn.
#[derive(Debug)]
pub struct WallArgs(pub i64, pub i64, pub i64, pub i64, pub (i64, i64));

/// A spawner takes no arguments.
#[derive(Debug)]
pub struct SpawnerArgs();

} // verus!
