//! The brains: one steering strategy per ship category.
//!
//! A brain chooses directives. What it needs measured (is the player in plain
//! sight, which way lies the intercept) the host measures and hands over as
//! `Senses`; the amounts that go into the directives come from the `Helm`.

use std::collections::HashMap;
use vstd::prelude::*;

use crate::bus::Broadcast;
use crate::physics::Point;
use crate::ship::{ShipCache, BELL, CAYENNE, CHICKPEA, JALAPENO};

verus! {

/// One steering command. A ship carries out its directives in order.
#[derive(Clone, Copy, Debug, PartialEq)]
pub enum Directive<S> {
    /// Face this way.
    SetDirection(S),
    /// Turn by this much.
    Rotate(S),
    /// Thrust with this fraction of the engine's force.
    Thrust(S),
    /// Turn against the velocity and slow down.
    Brake,
    /// Face this point.
    Aim(Point<S>),
}

/// The amounts that the brains put into their directives. The host derives
/// them from the length of the tick.
#[derive(Clone, Copy, Debug, PartialEq)]
pub struct Helm<S> {
    /// The turn of one tick to the left, for the player's ship.
    pub port: S,
    /// The turn of one tick to the right, for the player's ship.
    pub starboard: S,
    /// The turn of one tick of a drone that looks for the player.
    pub scan: S,
    /// The thrust fraction of a brain that thrusts.
    pub full: S,
}

/// What the host measured for one brain in one tick. Whether there is a
/// player to see or to pursue the brain asks the snapshot itself.
#[derive(Clone, Copy, Debug, PartialEq)]
pub struct Senses<S> {
    /// No obstacle stands between this ship and the player's recorded
    /// position.
    pub clear: bool,
    /// The heading of the pursuit, where the host has one to give.
    pub bearing: Option<S>,
}

/// There is a player: one is named, and the snapshot shows it. A player that
/// is named and not shown, dead or not yet there, is no player.
pub open spec fn player_present<S>(cast: Broadcast<S>, actors: Map<u32, ShipCache<S>>) -> bool {
    cast.player_id matches Some(id) && actors.contains_key(id)
}

/// Whether there is a player.
pub fn player_is_present<S: Copy>(
    cast: &Broadcast<S>,
    actors: &HashMap<u32, ShipCache<S>>,
) -> (present: bool)
    ensures
        present == player_present(*cast, actors@),
{
    match cast.player_id {
        Some(id) => actors.contains_key(&id),
        None => false,
    }
}

/// The plan of the player's ship for a set of pressed keys. The mouse button
/// `M` overrides the keys: aim at the cursor and thrust. Otherwise each of
/// `L`, `R`, `T`, `B` adds its directive, in this order.
pub open spec fn bell_plan<S>(pressed: Seq<char>, cursor: Point<S>, helm: Helm<S>) -> Seq<
    Directive<S>,
> {
    if pressed.contains('M') {
        seq![Directive::Aim(cursor), Directive::Thrust(helm.full)]
    } else {
        (if pressed.contains('L') {
            seq![Directive::Rotate(helm.port)]
        } else {
            seq![]
        }) + (if pressed.contains('R') {
            seq![Directive::Rotate(helm.starboard)]
        } else {
            seq![]
        }) + (if pressed.contains('T') {
            seq![Directive::Thrust(helm.full)]
        } else {
            seq![]
        }) + (if pressed.contains('B') {
            seq![Directive::Brake]
        } else {
            seq![]
        })
    }
}

/// The target of a drone after one look: the player's recorded position when
/// there is a player, `present` in the snapshot and in plain sight, else the
/// target it had.
pub open spec fn latched<S>(
    target: Option<Point<S>>,
    cast: Broadcast<S>,
    present: bool,
    clear: bool,
) -> Option<Point<S>> {
    if cast.player_id.is_some() && present && clear {
        Some(cast.player_position)
    } else {
        target
    }
}

/// The plan of a wanderer: make for the target it has, else keep turning.
pub open spec fn jalapeno_plan<S>(target: Option<Point<S>>, helm: Helm<S>) -> Seq<Directive<S>> {
    match target {
        Some(p) => seq![Directive::Aim(p), Directive::Thrust(helm.full)],
        None => seq![Directive::Rotate(helm.scan)],
    }
}

/// The plan of an interceptor: once it has a target, and while there is a
/// player and a bearing to it, follow the bearing; else keep turning.
pub open spec fn cayenne_plan<S>(
    target: Option<Point<S>>,
    present: bool,
    bearing: Option<S>,
    helm: Helm<S>,
) -> Seq<Directive<S>> {
    match bearing {
        Some(b) if target.is_some() && present => seq![
            Directive::SetDirection(b),
            Directive::Thrust(helm.full),
        ],
        _ => seq![Directive::Rotate(helm.scan)],
    }
}

/// The plan of a swarm drone: while there is a player, follow the bearing of
/// the flock, if there is one; else nothing.
pub open spec fn chickpea_plan<S>(present: bool, bearing: Option<S>, helm: Helm<S>) -> Seq<
    Directive<S>,
> {
    match bearing {
        Some(b) if present => seq![Directive::SetDirection(b), Directive::Thrust(helm.full)],
        _ => seq![],
    }
}

/// A drone that has a target keeps one, whatever it sees; a drone that has
/// none gets one exactly when a player is named, present and in plain sight.
pub proof fn lemma_engagement<S>(
    target: Option<Point<S>>,
    cast: Broadcast<S>,
    present: bool,
    clear: bool,
)
    ensures
        target.is_some() ==> latched(target, cast, present, clear).is_some(),
        target.is_none() ==> (latched(target, cast, present, clear).is_some()
            <==> cast.player_id.is_some() && present && clear),
{
}

/// A drone that hunts by sight and has never seen the player keeps turning
/// on the spot while it cannot see the player: because an obstacle stands
/// between them, or because there is no player.
pub proof fn lemma_unseen_player<S>(
    cast: Broadcast<S>,
    present: bool,
    clear: bool,
    bearing: Option<S>,
    helm: Helm<S>,
)
    requires
        !present || !clear,
    ensures
        latched(None, cast, present, clear) == None::<Point<S>>,
        jalapeno_plan(latched(None, cast, present, clear), helm) == seq![
            Directive::Rotate(helm.scan),
        ],
        cayenne_plan(latched(None, cast, present, clear), present, bearing, helm) == seq![
            Directive::Rotate(helm.scan),
        ],
{
}

/// Without a player no drone pursues: an interceptor turns on the spot,
/// engaged or not, and a swarm drone does nothing.
pub proof fn lemma_no_player<S>(target: Option<Point<S>>, bearing: Option<S>, helm: Helm<S>)
    ensures
        cayenne_plan(target, false, bearing, helm) == seq![Directive::Rotate(helm.scan)],
        chickpea_plan(false, bearing, helm) == Seq::<Directive<S>>::empty(),
{
}

/// The brain of the player's ship: it does what the keys say.
#[derive(Clone, Copy, Debug, PartialEq, Eq, Structural)]
pub struct BellBrain {
    id: u32,
}

impl BellBrain {
    pub closed spec fn id(&self) -> u32 {
        self.id
    }

    pub fn new(id: u32) -> (brain: BellBrain)
        ensures
            brain.id() == id,
    {
        BellBrain { id }
    }

    pub fn get_id(&self) -> (id: u32)
        ensures
            id == self.id(),
    {
        self.id
    }

    /// Reads the pressed keys and the cursor off the broadcast.
    pub fn think<S: Copy>(&mut self, helm: &Helm<S>, cast: &Broadcast<S>) -> (plan: Vec<
        Directive<S>,
    >)
        ensures
            *final(self) == *old(self),
            plan@ == bell_plan(cast.input@, cast.cursor, *helm),
    {
        let mut plan: Vec<Directive<S>> = Vec::new();
        if cast.is_pressed('M') {
            plan.push(Directive::Aim(cast.cursor));
            plan.push(Directive::Thrust(helm.full));
            return plan;
        }
        if cast.is_pressed('L') {
            plan.push(Directive::Rotate(helm.port));
        }
        if cast.is_pressed('R') {
            plan.push(Directive::Rotate(helm.starboard));
        }
        if cast.is_pressed('T') {
            plan.push(Directive::Thrust(helm.full));
        }
        if cast.is_pressed('B') {
            plan.push(Directive::Brake);
        }
        plan
    }
}

/// The brain of a wanderer. It turns on the spot until it first sees the
/// player; from then on it makes for the place where it last saw the player,
/// seen or not.
#[derive(Clone, Copy, Debug, PartialEq)]
pub struct JalapenoBrain<S> {
    id: u32,
    target: Option<Point<S>>,
}

impl<S: Copy> JalapenoBrain<S> {
    pub closed spec fn id(&self) -> u32 {
        self.id
    }

    /// Where the player was last seen; `None` until the first sighting.
    pub closed spec fn target(&self) -> Option<Point<S>> {
        self.target
    }

    pub fn new(id: u32) -> (brain: JalapenoBrain<S>)
        ensures
            brain.id() == id,
            brain.target().is_none(),
    {
        JalapenoBrain { id, target: None }
    }

    pub fn get_id(&self) -> (id: u32)
        ensures
            id == self.id(),
    {
        self.id
    }

    /// Whether the brain has seen the player yet.
    pub fn is_active(&self) -> (active: bool)
        ensures
            active == self.target().is_some(),
    {
        self.target.is_some()
    }

    pub fn get_target(&self) -> (target: Option<Point<S>>)
        ensures
            target == self.target(),
    {
        self.target
    }

    pub fn think(
        &mut self,
        helm: &Helm<S>,
        cast: &Broadcast<S>,
        actors: &HashMap<u32, ShipCache<S>>,
        senses: &Senses<S>,
    ) -> (plan: Vec<Directive<S>>)
        ensures
            final(self).id() == old(self).id(),
            final(self).target() == latched(
                old(self).target(),
                *cast,
                player_present(*cast, actors@),
                senses.clear,
            ),
            plan@ == jalapeno_plan(final(self).target(), *helm),
    {
        if player_is_present(cast, actors) && senses.clear {
            self.target = Some(cast.player_position);
        }
        let mut plan: Vec<Directive<S>> = Vec::new();
        match self.target {
            Some(p) => {
                plan.push(Directive::Aim(p));
                plan.push(Directive::Thrust(helm.full));
            },
            None => {
                plan.push(Directive::Rotate(helm.scan));
            },
        }
        plan
    }
}

/// The brain of an interceptor. It turns on the spot until it first sees the
/// player; from then on it steers where the host's bearing leads. Without a
/// bearing, as when the player is gone, it turns on the spot.
#[derive(Clone, Copy, Debug, PartialEq)]
pub struct CayenneBrain<S> {
    id: u32,
    target: Option<Point<S>>,
}

impl<S: Copy> CayenneBrain<S> {
    pub closed spec fn id(&self) -> u32 {
        self.id
    }

    /// Where the player was last seen; `None` until the first sighting.
    pub closed spec fn target(&self) -> Option<Point<S>> {
        self.target
    }

    pub fn new(id: u32) -> (brain: CayenneBrain<S>)
        ensures
            brain.id() == id,
            brain.target().is_none(),
    {
        CayenneBrain { id, target: None }
    }

    pub fn get_id(&self) -> (id: u32)
        ensures
            id == self.id(),
    {
        self.id
    }

    /// Whether the brain has seen the player yet.
    pub fn is_active(&self) -> (active: bool)
        ensures
            active == self.target().is_some(),
    {
        self.target.is_some()
    }

    pub fn get_target(&self) -> (target: Option<Point<S>>)
        ensures
            target == self.target(),
    {
        self.target
    }

    pub fn think(
        &mut self,
        helm: &Helm<S>,
        cast: &Broadcast<S>,
        actors: &HashMap<u32, ShipCache<S>>,
        senses: &Senses<S>,
    ) -> (plan: Vec<Directive<S>>)
        ensures
            final(self).id() == old(self).id(),
            final(self).target() == latched(
                old(self).target(),
                *cast,
                player_present(*cast, actors@),
                senses.clear,
            ),
            plan@ == cayenne_plan(
                final(self).target(),
                player_present(*cast, actors@),
                senses.bearing,
                *helm,
            ),
    {
        let present = player_is_present(cast, actors);
        if present && senses.clear {
            self.target = Some(cast.player_position);
        }
        let mut plan: Vec<Directive<S>> = Vec::new();
        match senses.bearing {
            Some(b) if self.target.is_some() && present => {
                plan.push(Directive::SetDirection(b));
                plan.push(Directive::Thrust(helm.full));
            },
            _ => {
                plan.push(Directive::Rotate(helm.scan));
            },
        }
        plan
    }
}

/// The brain of a swarm drone. It keeps apart from its own kind, which is for
/// the host to measure, and follows the bearing that comes of it.
#[derive(Clone, Copy, Debug, PartialEq, Eq, Structural)]
pub struct ChickpeaBrain {
    id: u32,
}

impl ChickpeaBrain {
    pub closed spec fn id(&self) -> u32 {
        self.id
    }

    pub fn new(id: u32) -> (brain: ChickpeaBrain)
        ensures
            brain.id() == id,
    {
        ChickpeaBrain { id }
    }

    pub fn get_id(&self) -> (id: u32)
        ensures
            id == self.id(),
    {
        self.id
    }

    /// Whether `other` is one of the flock that this drone keeps apart from:
    /// a swarm drone, and not this one.
    pub fn is_flockmate<S>(&self, other: &ShipCache<S>) -> (mate: bool)
        ensures
            mate == (other.category == CHICKPEA && other.id != self.id()),
    {
        other.category == CHICKPEA && other.id != self.id
    }

    pub fn think<S: Copy>(
        &mut self,
        helm: &Helm<S>,
        cast: &Broadcast<S>,
        actors: &HashMap<u32, ShipCache<S>>,
        senses: &Senses<S>,
    ) -> (plan: Vec<Directive<S>>)
        ensures
            *final(self) == *old(self),
            plan@ == chickpea_plan(player_present(*cast, actors@), senses.bearing, *helm),
    {
        let mut plan: Vec<Directive<S>> = Vec::new();
        match senses.bearing {
            Some(b) if player_is_present(cast, actors) => {
                plan.push(Directive::SetDirection(b));
                plan.push(Directive::Thrust(helm.full));
            },
            _ => {},
        }
        plan
    }
}

/// A brain of one of the four kinds.
#[derive(Clone, Copy, Debug, PartialEq)]
pub enum Brain<S> {
    Bell(BellBrain),
    Jalapeno(JalapenoBrain<S>),
    Cayenne(CayenneBrain<S>),
    Chickpea(ChickpeaBrain),
}

/// The brain that `build_brain` makes for a category and a ship id: of the
/// category's kind, with the id, and with no target yet.
pub open spec fn fresh_brain<S: Copy>(brain: Brain<S>, category: usize, id: u32) -> bool {
    match brain {
        Brain::Bell(b) => category == BELL && b.id() == id,
        Brain::Jalapeno(b) => category == JALAPENO && b.id() == id && b.target().is_none(),
        Brain::Cayenne(b) => category == CAYENNE && b.id() == id && b.target().is_none(),
        Brain::Chickpea(b) => category == CHICKPEA && b.id() == id,
    }
}

/// What a brain of any kind plans, given the target it holds after the look
/// and whether there is a player.
pub open spec fn brain_plan<S: Copy>(
    after: Brain<S>,
    helm: Helm<S>,
    cast: Broadcast<S>,
    present: bool,
    senses: Senses<S>,
) -> Seq<Directive<S>> {
    match after {
        Brain::Bell(_) => bell_plan(cast.input@, cast.cursor, helm),
        Brain::Jalapeno(b) => jalapeno_plan(b.target(), helm),
        Brain::Cayenne(b) => cayenne_plan(b.target(), present, senses.bearing, helm),
        Brain::Chickpea(_) => chickpea_plan(present, senses.bearing, helm),
    }
}

/// How one look changes a brain: a drone that hunts by sight latches onto
/// a player that is present and in plain sight, the others stay as they are.
pub open spec fn brain_after<S: Copy>(
    before: Brain<S>,
    after: Brain<S>,
    cast: Broadcast<S>,
    present: bool,
    clear: bool,
) -> bool {
    match before {
        Brain::Bell(b) => after == before,
        Brain::Jalapeno(b) => after matches Brain::Jalapeno(a) && a.id() == b.id() && a.target()
            == latched(b.target(), cast, present, clear),
        Brain::Cayenne(b) => after matches Brain::Cayenne(a) && a.id() == b.id() && a.target()
            == latched(b.target(), cast, present, clear),
        Brain::Chickpea(b) => after == before,
    }
}

/// The brain for a category. There are four categories, numbered from zero.
pub fn build_brain<S: Copy>(category: usize, id: u32) -> (brain: Brain<S>)
    requires
        category <= CHICKPEA,
    ensures
        fresh_brain(brain, category, id),
{
    if category == BELL {
        Brain::Bell(BellBrain::new(id))
    } else if category == JALAPENO {
        Brain::Jalapeno(JalapenoBrain::new(id))
    } else if category == CAYENNE {
        Brain::Cayenne(CayenneBrain::new(id))
    } else {
        Brain::Chickpea(ChickpeaBrain::new(id))
    }
}

impl<S: Copy> Brain<S> {
    /// The id of the ship that the brain steers.
    pub open spec fn id(&self) -> u32 {
        match *self {
            Brain::Bell(b) => b.id(),
            Brain::Jalapeno(b) => b.id(),
            Brain::Cayenne(b) => b.id(),
            Brain::Chickpea(b) => b.id(),
        }
    }

    /// Asks the brain for this tick's directives. `actors` is the snapshot of
    /// the ships.
    pub fn think(
        &mut self,
        helm: &Helm<S>,
        cast: &Broadcast<S>,
        actors: &HashMap<u32, ShipCache<S>>,
        senses: &Senses<S>,
    ) -> (plan: Vec<Directive<S>>)
        ensures
            brain_after(
                *old(self),
                *final(self),
                *cast,
                player_present(*cast, actors@),
                senses.clear,
            ),
            plan@ == brain_plan(
                *final(self),
                *helm,
                *cast,
                player_present(*cast, actors@),
                *senses,
            ),
    {
        match self {
            Brain::Bell(b) => b.think(helm, cast),
            Brain::Jalapeno(b) => b.think(helm, cast, actors, senses),
            Brain::Cayenne(b) => b.think(helm, cast, actors, senses),
            Brain::Chickpea(b) => b.think(helm, cast, actors, senses),
        }
    }
}

} // verus!
