//! The ships: their categories, how one is built and numbered, the snapshot
//! that the others see of it, and what a tick makes of it.

use std::collections::HashMap;
use vstd::prelude::*;

use crate::ai::{
    brain_after, brain_plan, build_brain, fresh_brain, player_present, Brain, Directive, Helm,
    Senses,
};
use crate::bus::{Broadcast, Message, MessageBody};
use crate::physics::{Circle, Point, Rectangle, Vector};
use crate::storage::ShipArgs;

verus! {

/// The player's class.
pub const BELL: usize = 0;

/// The light drone, a wanderer.
pub const JALAPENO: usize = 1;

/// The heavy drone, an interceptor.
pub const CAYENNE: usize = 2;

/// The swarm drone.
pub const CHICKPEA: usize = 3;

/// The numbers by which the categories differ, one per category in the order
/// of their constants, and the numbers that every new ship starts with.
#[derive(Clone, Copy, Debug, PartialEq)]
pub struct Catalog<S> {
    pub radius: [S; 4],
    pub health: [S; 4],
    pub force: [S; 4],
    pub mass: [S; 4],
    /// The share of its speed that a ship keeps in a collision.
    pub elasticity: S,
    /// The facing of a new ship.
    pub facing: S,
    /// The place of a ship that was never placed.
    pub origin: Point<S>,
    /// The velocity of a ship that was given none.
    pub rest: Vector<S>,
}

/// An actor of the simulation.
#[derive(Debug)]
pub struct Ship<S> {
    pub id: u32,
    pub category: usize,
    pub brain: Brain<S>,
    pub vector: Vector<S>,
    pub circle: Circle<S>,
    pub health: S,
    pub direction: S,
    pub force: S,
    pub mass: S,
    pub elasticity: S,
    pub actions: Vec<Directive<S>>,
}

/// What the other ships, and whoever draws, see of a ship during a tick: its
/// state when the tick began, the box that its path of this tick lies in,
/// and the directives it carried out in the tick before.
#[derive(Debug)]
pub struct ShipCache<S> {
    pub id: u32,
    pub category: usize,
    pub vector: Vector<S>,
    pub circle: Circle<S>,
    pub health: S,
    pub direction: S,
    pub force: S,
    pub mass: S,
    pub elasticity: S,
    pub trajectory: Rectangle<S>,
    pub actions: Vec<Directive<S>>,
}

impl<S: Copy> ShipCache<S> {
    /// The centre of the ship.
    pub fn get_point(&self) -> (p: Point<S>)
        ensures
            p.x == self.circle.x,
            p.y == self.circle.y,
    {
        Point::new(self.circle.x, self.circle.y)
    }

    /// Whether the ship thrust in the tick before: whether one of its
    /// directives was a thrust.
    pub fn is_thrusting(&self) -> (thrusting: bool)
        ensures
            thrusting == exists|i: int|
                0 <= i < self.actions@.len() && (#[trigger] self.actions@[i]) is Thrust,
    {
        let mut i: usize = 0;
        while i < self.actions.len()
            invariant
                i <= self.actions.len(),
                forall|j: int| 0 <= j < i ==> !((#[trigger] self.actions@[j]) is Thrust),
            decreases self.actions.len() - i,
        {
            match self.actions[i] {
                Directive::Thrust(_) => {
                    return true;
                },
                _ => {},
            }
            i += 1;
        }
        false
    }
}

/// `cache` shows `ship` as it is, with `trajectory` for its path.
pub open spec fn shows<S>(cache: ShipCache<S>, ship: Ship<S>, trajectory: Rectangle<S>) -> bool {
    &&& cache.id == ship.id
    &&& cache.category == ship.category
    &&& cache.vector == ship.vector
    &&& cache.circle == ship.circle
    &&& cache.health == ship.health
    &&& cache.direction == ship.direction
    &&& cache.force == ship.force
    &&& cache.mass == ship.mass
    &&& cache.elasticity == ship.elasticity
    &&& cache.trajectory == trajectory
    &&& cache.actions@ == ship.actions@
}

/// What a tick makes of a ship, after its collisions.
#[derive(Clone, Copy, Debug, PartialEq, Eq, Structural)]
pub enum Fate {
    /// Its health holds: it asks its brain and acts.
    Acts,
    /// Its health ran out in this tick: it reports its death.
    Dies,
    /// It was dead before: it does nothing.
    Rests,
}

/// The fate of a ship that was `alive` when the tick began and whose health
/// is `spent` after the tick's collisions.
pub open spec fn fate_of(alive: bool, spent: bool) -> Fate {
    if !spent {
        Fate::Acts
    } else if alive {
        Fate::Dies
    } else {
        Fate::Rests
    }
}

pub fn fate(alive: bool, spent: bool) -> (f: Fate)
    ensures
        f == fate_of(alive, spent),
{
    if !spent {
        Fate::Acts
    } else if alive {
        Fate::Dies
    } else {
        Fate::Rests
    }
}

/// The fate of a ship in tick `k` of its life. `sound[k]` says whether its
/// health is positive when tick `k` has moved it. A ship is born with positive
/// health, and nothing changes its health between two ticks.
pub open spec fn fate_in(sound: Seq<bool>, k: int) -> Fate {
    fate_of(
        if k == 0 {
            true
        } else {
            sound[k - 1]
        },
        !sound[k],
    )
}

/// The message by which the ship with id `id` tells the game of its death.
pub open spec fn death_notice<S>(id: u32) -> Message<S> {
    Message { recipient: 0, sender: id, body: MessageBody::Death }
}

/// What a tick's end makes of the outbox `outbox`, for the ship with id `id`
/// that was `alive` when the tick began and whose health is `spent` now: a
/// ship that dies adds the notice of its death, any other ship adds nothing.
pub open spec fn settled<S>(outbox: Seq<Message<S>>, id: u32, alive: bool, spent: bool) -> Seq<
    Message<S>,
> {
    if fate_of(alive, spent) == Fate::Dies {
        outbox.push(death_notice(id))
    } else {
        outbox
    }
}

/// The outbox after the first `n` ticks of the life of the ship with id `id`,
/// from `outbox`, where nobody else writes to it: what `n` calls of `settle`
/// make of it.
pub open spec fn outbox_after<S>(outbox: Seq<Message<S>>, id: u32, sound: Seq<bool>, n: int) -> Seq<
    Message<S>,
>
    decreases n,
{
    if n <= 0 {
        outbox
    } else {
        settled(
            outbox_after(outbox, id, sound, n - 1),
            id,
            n == 1 || sound[n - 2],
            !sound[n - 1],
        )
    }
}

/// A life in which health, once spent, stays spent.
pub open spec fn fading(sound: Seq<bool>) -> bool {
    forall|i: int, j: int| 0 <= i <= j < sound.len() && !sound[i] ==> !sound[j]
}

proof fn lemma_outbox_so_far<S>(outbox: Seq<Message<S>>, id: u32, sound: Seq<bool>, n: int)
    requires
        fading(sound),
        0 <= n <= sound.len(),
    ensures
        outbox_after(outbox, id, sound, n) == if forall|k: int| 0 <= k < n ==> sound[k] {
            outbox
        } else {
            outbox.push(death_notice(id))
        },
    decreases n,
{
    if n > 0 {
        lemma_outbox_so_far(outbox, id, sound, n - 1);
        if forall|k: int| 0 <= k < n - 1 ==> sound[k] {
            if !sound[n - 1] {
                assert(!(forall|k: int| 0 <= k < n ==> sound[k]));
            }
        } else {
            let k = choose|k: int| 0 <= k < n - 1 && !sound[k];
            assert(!sound[n - 1]);
            assert(n - 1 >= 1 ==> !sound[n - 2]);
        }
    }
}

/// In a life in which health never grows back, a ship whose health runs out
/// sends exactly one notice of its death, in the tick in which it runs out,
/// and a ship whose health holds sends none; and from the tick in which its
/// health has run out, it does not act.
pub proof fn lemma_dies_once<S>(outbox: Seq<Message<S>>, id: u32, sound: Seq<bool>)
    requires
        fading(sound),
    ensures
        outbox_after(outbox, id, sound, sound.len() as int) == if forall|k: int|
            0 <= k < sound.len() ==> sound[k] {
            outbox
        } else {
            outbox.push(death_notice(id))
        },
        forall|k: int|
            0 <= k < sound.len() ==> (sound[k] <==> #[trigger] fate_in(sound, k) == Fate::Acts),
{
    lemma_outbox_so_far(outbox, id, sound, sound.len() as int);
}

impl<S: Copy> Ship<S> {
    /// `self` and `before` differ in nothing but the brain and the
    /// directives.
    pub open spec fn same_body(&self, before: &Ship<S>) -> bool {
        &&& self.id == before.id
        &&& self.category == before.category
        &&& self.vector == before.vector
        &&& self.circle == before.circle
        &&& self.health == before.health
        &&& self.direction == before.direction
        &&& self.force == before.force
        &&& self.mass == before.mass
        &&& self.elasticity == before.elasticity
    }

    pub fn get_id(&self) -> (id: u32)
        ensures
            id == self.id,
    {
        self.id
    }

    pub fn get_x(&self) -> (x: S)
        ensures
            x == self.circle.x,
    {
        self.circle.get_x()
    }

    pub fn get_y(&self) -> (y: S)
        ensures
            y == self.circle.y,
    {
        self.circle.get_y()
    }

    pub fn set_direction(&mut self, d: S)
        ensures
            *final(self) == (Ship { direction: d, ..*old(self) }),
    {
        self.direction = d;
    }

    /// The snapshot of the ship, with `trajectory` for the box of its path.
    pub fn get_cache(&self, trajectory: Rectangle<S>) -> (cache: ShipCache<S>)
        ensures
            shows(cache, *self, trajectory),
    {
        let actions = copy_plan(&self.actions);
        ShipCache {
            id: self.id,
            category: self.category,
            vector: self.vector,
            circle: self.circle,
            health: self.health,
            direction: self.direction,
            force: self.force,
            mass: self.mass,
            elasticity: self.elasticity,
            trajectory,
            actions,
        }
    }

    /// Whether the ship has run into `other`, given what the host measured:
    /// `near` says that the boxes of their paths overlap, `touching` that
    /// their circles do. A ship does not run into itself.
    pub fn meets(&self, other: &ShipCache<S>, near: bool, touching: bool) -> (hit: bool)
        ensures
            hit == (other.id != self.id && near && touching),
    {
        other.id != self.id && near && touching
    }

    /// Tells the game of a collision with the ship `other`, about at
    /// `contact`, if the ship is still `fast` after it.
    pub fn report_ship_collision(
        &self,
        cast: &mut Broadcast<S>,
        other: u32,
        contact: Point<S>,
        fast: bool,
    )
        ensures
            final(cast).outbox@ == if fast {
                old(cast).outbox@.push(
                    Message {
                        recipient: 0,
                        sender: self.id,
                        body: MessageBody::ShipCollision(other, contact),
                    },
                )
            } else {
                old(cast).outbox@
            },
            final(cast).kept(old(cast)),
    {
        if fast {
            cast.send_message(Message::new(0, self.id, MessageBody::ShipCollision(other, contact)));
        }
    }

    /// Tells the game of a collision with the asteroid that lies at
    /// `asteroid`, about at `contact`, if the ship is still `fast` after it.
    pub fn report_asteroid_collision(
        &self,
        cast: &mut Broadcast<S>,
        asteroid: Point<S>,
        contact: Point<S>,
        fast: bool,
    )
        ensures
            final(cast).outbox@ == if fast {
                old(cast).outbox@.push(
                    Message {
                        recipient: 0,
                        sender: self.id,
                        body: MessageBody::AsteroidCollision(asteroid, contact),
                    },
                )
            } else {
                old(cast).outbox@
            },
            final(cast).kept(old(cast)),
    {
        if fast {
            cast.send_message(
                Message::new(0, self.id, MessageBody::AsteroidCollision(asteroid, contact)),
            );
        }
    }

    /// Closes the part of a tick in which the ship was moved. `alive` says
    /// whether its health was positive when the tick began, `spent` whether
    /// it is used up now. A ship that dies says so once, to the game; a ship
    /// whose health is spent forgets its directives and is not to act. The
    /// result says whether the ship is to act.
    pub fn settle(&mut self, alive: bool, spent: bool, cast: &mut Broadcast<S>) -> (acts: bool)
        ensures
            acts == (fate_of(alive, spent) == Fate::Acts),
            final(cast).outbox@ == settled(old(cast).outbox@, old(self).id, alive, spent),
            final(cast).kept(old(cast)),
            final(self).actions@ == if spent {
                Seq::<Directive<S>>::empty()
            } else {
                old(self).actions@
            },
            final(self).same_body(old(self)),
            final(self).brain == old(self).brain,
    {
        match fate(alive, spent) {
            Fate::Acts => true,
            Fate::Dies => {
                cast.send_message(Message::new(0, self.id, MessageBody::Death));
                self.actions = Vec::new();
                false
            },
            Fate::Rests => {
                self.actions = Vec::new();
                false
            },
        }
    }
}

impl<S: Copy> Ship<S> {
    /// The part of a tick that follows the moving of the ship: `settle`, and
    /// for a ship that is to act, the question to its brain. The ship keeps
    /// the plan as its directives of this tick, and the host carries the plan
    /// out, in order. A ship whose health is spent gets no plan.
    pub fn act(
        &mut self,
        alive: bool,
        spent: bool,
        helm: &Helm<S>,
        cast: &mut Broadcast<S>,
        actors: &HashMap<u32, ShipCache<S>>,
        senses: &Senses<S>,
    ) -> (plan: Vec<Directive<S>>)
        ensures
            final(cast).outbox@ == settled(old(cast).outbox@, old(self).id, alive, spent),
            final(cast).kept(old(cast)),
            spent ==> plan@ == Seq::<Directive<S>>::empty() && final(self).brain == old(self).brain,
            !spent ==> brain_after(
                old(self).brain,
                final(self).brain,
                *old(cast),
                player_present(*old(cast), actors@),
                senses.clear,
            ) && plan@ == brain_plan(
                final(self).brain,
                *helm,
                *old(cast),
                player_present(*old(cast), actors@),
                *senses,
            ),
            final(self).actions@ == plan@,
            final(self).same_body(old(self)),
    {
        if !self.settle(alive, spent, cast) {
            return Vec::new();
        }
        let plan = self.brain.think(helm, cast, actors, senses);
        self.actions = copy_plan(&plan);
        plan
    }
}

/// A copy of a list of directives.
fn copy_plan<S: Copy>(plan: &Vec<Directive<S>>) -> (copy: Vec<Directive<S>>)
    ensures
        copy@ == plan@,
{
    let mut copy: Vec<Directive<S>> = Vec::new();
    let mut i: usize = 0;
    while i < plan.len()
        invariant
            i <= plan.len(),
            copy@ == plan@.take(i as int),
        decreases plan.len() - i,
    {
        copy.push(plan[i]);
        assert(plan@.take(i as int).push(plan@[i as int]) == plan@.take(i + 1));
        i += 1;
    }
    assert(plan@.take(plan.len() as int) == plan@);
    copy
}

/// Collects what a ship is to be built from.
#[derive(Clone, Copy, Debug, PartialEq)]
pub struct ShipBuilder<S> {
    pub id: u32,
    pub category: usize,
    /// Where the ship is placed; `None` stands for the catalog's origin.
    pub pos: Option<Point<S>>,
    /// The velocity of the ship; `None` stands for the catalog's rest.
    pub vector: Option<Vector<S>>,
}

/// The builder that a level file's arguments describe: with id 0.
pub open spec fn args_builder<S>(args: ShipArgs<S>) -> ShipBuilder<S> {
    ShipBuilder {
        id: 0,
        category: args.0,
        pos: Some(Point { x: args.1, y: args.2 }),
        vector: Some(Vector { direction: args.3.0, magnitude: args.3.1 }),
    }
}

/// `builder` with `id` for its id.
pub open spec fn tagged<S>(builder: ShipBuilder<S>, id: int) -> ShipBuilder<S> {
    ShipBuilder { id: id as u32, ..builder }
}

/// The builder of a ship of `category` at `(x, y)`, at rest, with id `id`.
pub open spec fn placed<S>(category: usize, x: S, y: S, id: u32) -> ShipBuilder<S> {
    ShipBuilder { id, category, pos: Some(Point { x, y }), vector: None }
}

/// `ship` is what `builder` builds from `catalog`.
pub open spec fn is_built<S: Copy>(
    ship: Ship<S>,
    builder: ShipBuilder<S>,
    catalog: Catalog<S>,
) -> bool {
    let at = match builder.pos {
        Some(p) => p,
        None => catalog.origin,
    };
    let cat = builder.category as int;
    &&& ship.id == builder.id
    &&& ship.category == builder.category
    &&& fresh_brain(ship.brain, builder.category, builder.id)
    &&& ship.vector == match builder.vector {
        Some(v) => v,
        None => catalog.rest,
    }
    &&& ship.circle == (Circle { x: at.x, y: at.y, r: catalog.radius[cat] })
    &&& ship.health == catalog.health[cat]
    &&& ship.direction == catalog.facing
    &&& ship.force == catalog.force[cat]
    &&& ship.mass == catalog.mass[cat]
    &&& ship.elasticity == catalog.elasticity
    &&& ship.actions@ == Seq::<Directive<S>>::empty()
}

impl<S: Copy> ShipBuilder<S> {
    /// A builder for the player's class.
    pub fn default() -> (builder: ShipBuilder<S>)
        ensures
            builder == (ShipBuilder::<S> { id: 0, category: BELL, pos: None, vector: None }),
    {
        ShipBuilder::new(BELL)
    }

    /// A builder for a ship of `category`, with id 0, not placed and at rest.
    pub fn new(category: usize) -> (builder: ShipBuilder<S>)
        ensures
            builder == (ShipBuilder::<S> { id: 0, category, pos: None, vector: None }),
    {
        ShipBuilder { id: 0, category, pos: None, vector: None }
    }

    pub fn set_vector(self, vector: Vector<S>) -> (builder: ShipBuilder<S>)
        ensures
            builder == (ShipBuilder { vector: Some(vector), ..self }),
    {
        ShipBuilder { vector: Some(vector), ..self }
    }

    pub fn place(self, x: S, y: S) -> (builder: ShipBuilder<S>)
        ensures
            builder == (ShipBuilder { pos: Some(Point { x, y }), ..self }),
    {
        ShipBuilder { pos: Some(Point::new(x, y)), ..self }
    }

    pub fn tag(self, id: u32) -> (builder: ShipBuilder<S>)
        ensures
            builder == (ShipBuilder { id, ..self }),
    {
        ShipBuilder { id, ..self }
    }

    /// Builds the ship: a brain of the category's kind, the category's
    /// numbers out of the catalog, full health, and no directive yet.
    pub fn build(self, catalog: &Catalog<S>) -> (ship: Ship<S>)
        requires
            self.category <= CHICKPEA,
        ensures
            is_built(ship, self, *catalog),
    {
        let cat: usize = self.category;
        let at = match self.pos {
            Some(p) => p,
            None => catalog.origin,
        };
        let vector = match self.vector {
            Some(v) => v,
            None => catalog.rest,
        };
        Ship {
            id: self.id,
            category: self.category,
            brain: build_brain(self.category, self.id),
            vector,
            circle: Circle::new(at.x, at.y, catalog.radius[cat]),
            health: catalog.health[cat],
            direction: catalog.facing,
            force: catalog.force[cat],
            mass: catalog.mass[cat],
            elasticity: catalog.elasticity,
            actions: Vec::new(),
        }
    }
}

/// The builder that a level file's arguments describe.
impl<S: Copy> From<&ShipArgs<S>> for ShipBuilder<S> {
    fn from(s: &ShipArgs<S>) -> (builder: ShipBuilder<S>) {
        ShipBuilder {
            id: 0,
            category: s.0,
            pos: Some(Point::new(s.1, s.2)),
            vector: Some(Vector::from(s.3)),
        }
    }
}

impl<S: Copy> vstd::std_specs::convert::FromSpecImpl<&ShipArgs<S>> for ShipBuilder<S> {
    open spec fn obeys_from_spec() -> bool {
        true
    }

    open spec fn from_spec(s: &ShipArgs<S>) -> ShipBuilder<S> {
        args_builder(*s)
    }
}

/// Builds ships and numbers them: the first gets id 1, each next one the
/// next number.
#[derive(Debug)]
pub struct ShipFactory {
    count: u32,
}

impl ShipFactory {
    /// How many ships the factory has built; also the id of the last.
    pub closed spec fn count(&self) -> u32 {
        self.count
    }

    pub fn new() -> (factory: ShipFactory)
        ensures
            factory.count() == 0,
    {
        ShipFactory { count: 0 }
    }

    pub fn get_count(&self) -> (count: u32)
        ensures
            count == self.count(),
    {
        self.count
    }

    /// A ship of the player's class at `(x, y)`.
    pub fn new_bell<S: Copy>(&mut self, x: S, y: S, catalog: &Catalog<S>) -> (ship: Ship<S>)
        requires
            old(self).count() < u32::MAX,
        ensures
            final(self).count() == old(self).count() + 1,
            is_built(ship, placed(BELL, x, y, final(self).count()), *catalog),
    {
        self.count += 1;
        ShipBuilder::new(BELL).place(x, y).tag(self.count).build(catalog)
    }

    /// A wanderer at `(x, y)`.
    pub fn new_jalapeno<S: Copy>(&mut self, x: S, y: S, catalog: &Catalog<S>) -> (ship: Ship<S>)
        requires
            old(self).count() < u32::MAX,
        ensures
            final(self).count() == old(self).count() + 1,
            is_built(ship, placed(JALAPENO, x, y, final(self).count()), *catalog),
    {
        self.count += 1;
        ShipBuilder::new(JALAPENO).place(x, y).tag(self.count).build(catalog)
    }

    /// An interceptor at `(x, y)`.
    pub fn new_cayenne<S: Copy>(&mut self, x: S, y: S, catalog: &Catalog<S>) -> (ship: Ship<S>)
        requires
            old(self).count() < u32::MAX,
        ensures
            final(self).count() == old(self).count() + 1,
            is_built(ship, placed(CAYENNE, x, y, final(self).count()), *catalog),
    {
        self.count += 1;
        ShipBuilder::new(CAYENNE).place(x, y).tag(self.count).build(catalog)
    }
}

} // verus!
