//! Obstacles, and the laying out of walls of them.

use rand::rngs::StdRng;
use rand::Rng;
use rand::SeedableRng;
use vstd::prelude::*;

use crate::physics::Circle;
use crate::storage::{AsteroidArgs, WallArgs};

verus! {

/// An obstacle that does not move: a circle, and the share of its speed that
/// a ship keeps when it bounces off.
#[derive(Clone, Copy, Debug, PartialEq)]
pub struct Asteroid<S> {
    circle: Circle<S>,
    elasticity: S,
}

impl<S: Copy> Asteroid<S> {
    pub closed spec fn circle(&self) -> Circle<S> {
        self.circle
    }

    pub closed spec fn elasticity(&self) -> S {
        self.elasticity
    }

    pub fn new(x: S, y: S, r: S, elasticity: S) -> (asteroid: Asteroid<S>)
        ensures
            asteroid.circle() == (Circle { x, y, r }),
            asteroid.elasticity() == elasticity,
    {
        Asteroid { circle: Circle::new(x, y, r), elasticity }
    }

    /// The asteroid that a level file's arguments describe.
    pub fn from_args(args: &AsteroidArgs<S>, elasticity: S) -> (asteroid: Asteroid<S>)
        ensures
            asteroid.circle() == (Circle { x: args.0, y: args.1, r: args.2 }),
            asteroid.elasticity() == elasticity,
    {
        Asteroid::new(args.0, args.1, args.2, elasticity)
    }

    pub fn get_circle(&self) -> (circle: Circle<S>)
        ensures
            circle == self.circle(),
    {
        self.circle
    }

    pub fn get_elasticity(&self) -> (elasticity: S)
        ensures
            elasticity == self.elasticity(),
    {
        self.elasticity
    }
}

/// One asteroid of a wall, on the integer lattice on which walls are laid out.
#[derive(Clone, Copy, Debug, PartialEq, Eq, Structural)]
pub struct Boulder {
    pub x: i64,
    pub y: i64,
    pub r: i64,
}

/// The generator type of the `rand` crate; the library carries it and never
/// looks inside.
#[verifier::external_type_specification]
#[verifier::external_body]
pub struct ExStdRng(StdRng);

/// `rand::SeedableRng::seed_from_u64` for `StdRng`. It takes every seed and
/// does not fail; nothing is claimed of the generator it returns.
#[verifier::external_body]
fn seeded(seed: u64) -> StdRng {
    StdRng::seed_from_u64(seed)
}

/// `rand::Rng::gen_range` on `i64`. It panics unless `low < high`, and
/// otherwise returns a number of the half-open range from `low` to `high`.
/// Which one is not claimed.
#[verifier::external_body]
fn draw(rng: &mut StdRng, low: i64, high: i64) -> (v: i64)
    requires
        low < high,
    ensures
        low <= v < high,
{
    rng.gen_range(low, high)
}

/// A 64-bit signed number read as unsigned, bit for bit.
pub open spec fn bits(v: i64) -> int {
    if v < 0 {
        v + 0x1_0000_0000_0000_0000
    } else {
        v as int
    }
}

/// How far a wall runs: the larger of its width and height.
pub open spec fn wall_length(wall: WallArgs) -> int {
    if wall.2 < wall.3 {
        wall.3 as int
    } else {
        wall.2 as int
    }
}

/// The walls that can be laid out: no negative side, a seed that fits, and,
/// unless the wall is empty, two positive sides, a range of positive radii
/// that is not empty, and room for the arithmetic.
pub open spec fn wall_ok(wall: WallArgs) -> bool {
    &&& 0 <= wall.2
    &&& 0 <= wall.3
    &&& bits(wall.0) + bits(wall.1) <= u64::MAX
    &&& wall_length(wall) > 0 ==> {
        &&& 0 < wall.2
        &&& 0 < wall.3
        &&& 1 <= wall.4.0 < wall.4.1
        &&& wall.0 + wall.2 - 1 <= i64::MAX
        &&& wall.1 + wall.3 - 1 <= i64::MAX
        &&& wall_length(wall) - 1 + 3 * (wall.4.1 - 1) <= i64::MAX
    }
}

/// Where the walk along the wall stands after the numbers in `draws`, which
/// come in pairs: a radius, then an extra stride that counts twice.
pub open spec fn reach(draws: Seq<i64>) -> int
    decreases draws.len(),
{
    if draws.len() < 2 {
        0
    } else {
        reach(draws.take(draws.len() - 2)) + draws[draws.len() - 2] + 2 * draws[draws.len() - 1]
    }
}

/// Where the walk stands when it sets down boulder number `k`, counted from
/// zero: after the first `k` pairs of `draws`.
pub open spec fn stand(draws: Seq<i64>, k: int) -> int {
    reach(draws.take(2 * k))
}

/// The boulder set down at step `i` of the walk with radius `r`: the walk
/// wraps around the width and around the height separately.
pub open spec fn boulder_at(wall: WallArgs, i: int, r: i64) -> Boulder {
    Boulder {
        x: (wall.0 + i % (wall.2 as int)) as i64,
        y: (wall.1 + i % (wall.3 as int)) as i64,
        r,
    }
}

/// `rocks` is the wall that `draws` gives: every number comes from the range
/// of radii, each pair of them sets down one boulder where the walk then
/// stands and moves the walk on, and the walk ends as soon as it has covered
/// the length of the wall.
pub open spec fn is_wall(wall: WallArgs, draws: Seq<i64>, rocks: Seq<Boulder>) -> bool {
    &&& draws.len() == 2 * rocks.len()
    &&& forall|j: int| 0 <= j < draws.len() ==> wall.4.0 <= #[trigger] draws[j] < wall.4.1
    &&& forall|k: int|
        #![trigger rocks[k]]
        #![trigger stand(draws, k)]
        0 <= k < rocks.len() ==> {
            &&& stand(draws, k) < wall_length(wall)
            &&& rocks[k] == boulder_at(wall, stand(draws, k), draws[2 * k])
        }
    &&& reach(draws) >= wall_length(wall)
}

/// Whether `wall` can be laid out.
pub fn wall_is_sound(wall: &WallArgs) -> (sound: bool)
    ensures
        sound == wall_ok(*wall),
{
    let x: i64 = wall.0;
    let y: i64 = wall.1;
    let w: i64 = wall.2;
    let h: i64 = wall.3;
    let low: i64 = wall.4.0;
    let high: i64 = wall.4.1;
    if w < 0 || h < 0 {
        return false;
    }
    if (x < 0 && y < 0) || ((x < 0 || y < 0) && x + y >= 0) {
        return false;
    }
    if w == 0 && h == 0 {
        return true;
    }
    if w == 0 || h == 0 || low < 1 || high <= low {
        return false;
    }
    let n: i64 = if w < h { h } else { w };
    if x > i64::MAX - (w - 1) || y > i64::MAX - (h - 1) {
        return false;
    }
    let top: i64 = high - 1;
    top <= (i64::MAX - (n - 1)) / 3
}

/// The seed of a wall's generator: the sum of its corner's coordinates, each
/// read as unsigned.
pub fn wall_seed(wall: &WallArgs) -> (seed: u64)
    requires
        bits(wall.0) + bits(wall.1) <= u64::MAX,
    ensures
        seed == bits(wall.0) + bits(wall.1),
{
    let x: i64 = wall.0;
    let y: i64 = wall.1;
    let a: u64 = #[verifier::truncate] (x as u64);
    let b: u64 = #[verifier::truncate] (y as u64);
    assert(a == bits(x)) by (bit_vector)
        requires
            a == x as u64,
    ;
    assert(b == bits(y)) by (bit_vector)
        requires
            b == y as u64,
    ;
    a + b
}

/// The boulder of radius `radius` at step `i` of the walk along `wall`.
pub fn set_down(wall: &WallArgs, i: i64, radius: i64) -> (rock: Boulder)
    requires
        wall_ok(*wall),
        0 <= i < wall_length(*wall),
    ensures
        rock == boulder_at(*wall, i as int, radius),
{
    Boulder { x: wall.0 + i % wall.2, y: wall.1 + i % wall.3, r: radius }
}

/// Lays out the asteroids of a wall. The walk starts at `(x, y)`; each step
/// draws a radius, sets a boulder down where the walk stands, wrapped into the
/// width and the height, and moves on by that radius and twice a second draw.
/// The generator is seeded with `wall_seed`, and the result is the wall of
/// whatever numbers it gave.
pub fn from_wall_args(wall: &WallArgs) -> (rocks: Vec<Boulder>)
    requires
        wall_ok(*wall),
    ensures
        exists|draws: Seq<i64>| is_wall(*wall, draws, rocks@),
{
    let low: i64 = wall.4.0;
    let high: i64 = wall.4.1;
    let n: i64 = if wall.2 < wall.3 {
        wall.3
    } else {
        wall.2
    };
    let mut rng = seeded(wall_seed(wall));
    let mut rocks: Vec<Boulder> = Vec::new();
    let ghost mut draws: Seq<i64> = Seq::empty();
    let mut i: i64 = 0;
    while i < n
        invariant
            wall_ok(*wall),
            low == wall.4.0,
            high == wall.4.1,
            n == wall_length(*wall),
            0 <= i,
            i == reach(draws),
            draws.len() == 2 * rocks.len(),
            forall|j: int| 0 <= j < draws.len() ==> low <= #[trigger] draws[j] < high,
            forall|k: int|
                #![trigger rocks[k]]
                #![trigger stand(draws, k)]
                0 <= k < rocks.len() ==> {
                    &&& stand(draws, k) < n
                    &&& rocks[k] == boulder_at(*wall, stand(draws, k), draws[2 * k])
                },
        decreases
                (if i < n {
                    n - i
                } else {
                    0
                }),
    {
        let radius: i64 = draw(&mut rng, low, high);
        rocks.push(set_down(wall, i, radius));
        let extra: i64 = draw(&mut rng, low, high);
        proof {
            let before = draws;
            draws = draws.push(radius).push(extra);
            assert(draws.take(draws.len() - 2) == before);
            assert(stand(draws, rocks.len() - 1) == i) by {
                assert(draws.take(2 * (rocks.len() - 1)) == before);
            }
            assert forall|k: int| 0 <= k < rocks.len() - 1 implies #[trigger] stand(draws, k)
                == stand(before, k) by {
                assert(draws.take(2 * k) == before.take(2 * k));
            }
        }
        i += radius + extra * 2;
    }
    proof {
        assert(is_wall(*wall, draws, rocks@));
    }
    rocks
}

} // verus!
