//! The spawner: it asks for a new drone at fixed intervals.

use vstd::prelude::*;

use crate::bus::{Broadcast, Message, MessageBody};
use crate::physics::Point;
use crate::ship::{ShipBuilder, CAYENNE, JALAPENO};

verus! {

/// The ticks between two spawns.
pub const SPAWN_PERIOD: u64 = 360;

/// Every spawn at a multiple of this many ticks is an interceptor.
pub const HEAVY_PERIOD: u64 = 1080;

/// The category that a spawner asks for at `tick`, if it asks: an active
/// spawner asks every 360 ticks, for an interceptor every 1080 ticks and for
/// a wanderer else.
pub open spec fn spawn_due(active: bool, tick: u64) -> Option<usize> {
    if active && tick % SPAWN_PERIOD == 0 {
        if tick % HEAVY_PERIOD == 0 {
            Some(CAYENNE)
        } else {
            Some(JALAPENO)
        }
    } else {
        None
    }
}

#[derive(Clone, Copy, Debug)]
pub struct ShipSpawner {
    active: bool,
}

impl ShipSpawner {
    pub closed spec fn active(&self) -> bool {
        self.active
    }

    pub fn new(a: bool) -> (spawner: ShipSpawner)
        ensures
            spawner.active() == a,
    {
        ShipSpawner { active: a }
    }

    pub fn is_active(&self) -> (active: bool)
        ensures
            active == self.active(),
    {
        self.active
    }

    /// The category to ask for at `tick`, if any.
    pub fn due(&self, tick: u64) -> (category: Option<usize>)
        ensures
            category == spawn_due(self.active(), tick),
    {
        if self.active && tick % SPAWN_PERIOD == 0 {
            if tick % HEAVY_PERIOD == 0 {
                Some(CAYENNE)
            } else {
                Some(JALAPENO)
            }
        } else {
            None
        }
    }

    /// Asks the game, when the broadcast's tick is due, for a drone placed at
    /// `site`: by a message from id 0 to id 0.
    pub fn act<S: Copy>(&self, cast: &mut Broadcast<S>, site: Point<S>)
        ensures
            final(cast).outbox@ == match spawn_due(self.active(), old(cast).tick) {
                Some(category) => old(cast).outbox@.push(
                    Message {
                        recipient: 0,
                        sender: 0,
                        body: MessageBody::Birth(
                            ShipBuilder { id: 0, category, pos: Some(site), vector: None },
                        ),
                    },
                ),
                None => old(cast).outbox@,
            },
            final(cast).kept(old(cast)),
    {
        match self.due(cast.tick) {
            Some(category) => {
                let ship = ShipBuilder::new(category).place(site.x, site.y);
                cast.send_message(Message::new(0, 0, MessageBody::Birth(ship)));
            },
            None => {},
        }
    }
}

} // verus!
