//! The broadcast: what every ship may know during a tick, and the outbox
//! into which the ships of a tick write.

use std::collections::HashMap;
use vstd::prelude::*;

use crate::physics::Point;
use crate::ship::{ShipBuilder, ShipCache};

verus! {

/// What a message says.
#[derive(Clone, Copy, Debug, PartialEq)]
pub enum MessageBody<S> {
    /// The sender has died.
    Death,
    /// The sender ran into the ship with this id, about at this point.
    ShipCollision(u32, Point<S>),
    /// The sender ran into the asteroid that lies at the first point, about
    /// at the second point.
    AsteroidCollision(Point<S>, Point<S>),
    /// A ship asks to be born.
    Birth(ShipBuilder<S>),
}

/// A message from one id to another. The game itself has id 0.
#[derive(Clone, Copy, Debug, PartialEq)]
pub struct Message<S> {
    pub recipient: u32,
    pub sender: u32,
    pub body: MessageBody<S>,
}

impl<S: Copy> Message<S> {
    pub fn new(recipient: u32, sender: u32, body: MessageBody<S>) -> (msg: Message<S>)
        ensures
            msg.recipient == recipient,
            msg.sender == sender,
            msg.body == body,
    {
        Message { recipient, sender, body }
    }
}

/// The messages that wait to be read. One can put a message at its end, and
/// one can take them all out; nothing else changes it.
#[derive(Debug)]
pub struct Outbox<S> {
    queue: Vec<Message<S>>,
}

impl<S> View for Outbox<S> {
    type V = Seq<Message<S>>;

    /// The waiting messages, oldest first.
    closed spec fn view(&self) -> Seq<Message<S>> {
        self.queue@
    }
}

impl<S: Copy> Outbox<S> {
    pub fn new() -> (outbox: Outbox<S>)
        ensures
            outbox@ == Seq::<Message<S>>::empty(),
    {
        Outbox { queue: Vec::new() }
    }

    pub fn len(&self) -> (n: usize)
        ensures
            n == self@.len(),
    {
        self.queue.len()
    }

    /// The waiting messages, to read.
    pub fn waiting(&self) -> (queue: &Vec<Message<S>>)
        ensures
            queue@ == self@,
    {
        &self.queue
    }

    /// Puts `msg` at the end.
    pub fn send(&mut self, msg: Message<S>)
        ensures
            final(self)@ == old(self)@.push(msg),
    {
        self.queue.push(msg);
    }

    /// Takes all messages out, oldest first.
    pub fn drain(&mut self) -> (sent: Vec<Message<S>>)
        ensures
            sent@ == old(self)@,
            final(self)@ == Seq::<Message<S>>::empty(),
    {
        let mut sent: Vec<Message<S>> = Vec::new();
        std::mem::swap(&mut self.queue, &mut sent);
        sent
    }
}

/// The shared context of a tick. `messages` holds what was sent during the
/// tick before; what is sent now waits in the outbox for the next `update`.
#[derive(Debug)]
pub struct Broadcast<S> {
    pub tick: u64,
    pub cursor: Point<S>,
    pub input: Vec<char>,
    pub player_id: Option<u32>,
    pub player_position: Point<S>,
    pub messages: Vec<Message<S>>,
    pub outbox: Outbox<S>,
}

impl<S: Copy> Broadcast<S> {
    /// Nothing but the outbox differs between `self` and `before`.
    pub open spec fn kept(&self, before: &Broadcast<S>) -> bool {
        &&& self.tick == before.tick
        &&& self.cursor == before.cursor
        &&& self.input@ == before.input@
        &&& self.player_id == before.player_id
        &&& self.player_position == before.player_position
        &&& self.messages@ == before.messages@
    }

    /// A broadcast before the first tick: nothing pressed, no player, no
    /// message, and the cursor and the player's position at `origin`.
    pub fn new(origin: Point<S>) -> (cast: Broadcast<S>)
        ensures
            cast.tick == 0,
            cast.cursor == origin,
            cast.input@ == Seq::<char>::empty(),
            cast.player_id.is_none(),
            cast.player_position == origin,
            cast.messages@ == Seq::<Message<S>>::empty(),
            cast.outbox@ == Seq::<Message<S>>::empty(),
    {
        Broadcast {
            tick: 0,
            cursor: origin,
            input: Vec::new(),
            player_id: None,
            player_position: origin,
            messages: Vec::new(),
            outbox: Outbox::new(),
        }
    }

    /// Starts tick number `tick`: the outbox becomes the messages to read,
    /// the messages of the tick before are gone, and the outbox is empty.
    pub fn update(&mut self, tick: u64)
        ensures
            final(self).tick == tick,
            final(self).messages@ == old(self).outbox@,
            final(self).outbox@ == Seq::<Message<S>>::empty(),
            final(self).cursor == old(self).cursor,
            final(self).input@ == old(self).input@,
            final(self).player_id == old(self).player_id,
            final(self).player_position == old(self).player_position,
    {
        self.messages = self.outbox.drain();
        self.tick = tick;
    }

    /// Records the player out of a snapshot of the ships, where a player is
    /// named; with none named the broadcast stays as it is.
    pub fn record_actors(&mut self, actors: &HashMap<u32, ShipCache<S>>, player_id: Option<u32>)
        requires
            player_id matches Some(id) ==> actors@.contains_key(id),
        ensures
            final(self).player_id == match player_id {
                Some(id) => Some(actors@[id].id),
                None => old(self).player_id,
            },
            final(self).player_position == match player_id {
                Some(id) => (Point { x: actors@[id].circle.x, y: actors@[id].circle.y }),
                None => old(self).player_position,
            },
            final(self).tick == old(self).tick,
            final(self).cursor == old(self).cursor,
            final(self).input@ == old(self).input@,
            final(self).messages@ == old(self).messages@,
            final(self).outbox@ == old(self).outbox@,
    {
        match player_id {
            Some(id) => {
                let player = actors.get(&id);
                match player {
                    Some(cache) => self.record_player(cache),
                    None => {},
                }
            },
            None => {},
        }
    }

    /// Records `player` as the player: its id, and the centre of its circle.
    pub fn record_player(&mut self, player: &ShipCache<S>)
        ensures
            final(self).player_id == Some(player.id),
            final(self).player_position == (Point { x: player.circle.x, y: player.circle.y }),
            final(self).tick == old(self).tick,
            final(self).cursor == old(self).cursor,
            final(self).input@ == old(self).input@,
            final(self).messages@ == old(self).messages@,
            final(self).outbox@ == old(self).outbox@,
    {
        self.player_id = Some(player.id);
        self.player_position = Point::new(player.circle.get_x(), player.circle.get_y());
    }

    /// Replaces the pressed keys by a copy of `pressed`.
    pub fn set_pressed(&mut self, pressed: &Vec<char>)
        ensures
            final(self).input@ == pressed@,
            final(self).tick == old(self).tick,
            final(self).cursor == old(self).cursor,
            final(self).player_id == old(self).player_id,
            final(self).player_position == old(self).player_position,
            final(self).messages@ == old(self).messages@,
            final(self).outbox@ == old(self).outbox@,
    {
        self.input = copy_keys(pressed);
    }

    pub fn move_cursor(&mut self, cursor: &Point<S>)
        ensures
            final(self).cursor == *cursor,
            final(self).tick == old(self).tick,
            final(self).input@ == old(self).input@,
            final(self).player_id == old(self).player_id,
            final(self).player_position == old(self).player_position,
            final(self).messages@ == old(self).messages@,
            final(self).outbox@ == old(self).outbox@,
    {
        self.cursor = *cursor;
    }

    /// A copy of the pressed keys.
    pub fn get_input(&self) -> (pressed: Vec<char>)
        ensures
            pressed@ == self.input@,
    {
        copy_keys(&self.input)
    }

    /// Whether `key` is among the pressed keys.
    pub fn is_pressed(&self, key: char) -> (pressed: bool)
        ensures
            pressed == self.input@.contains(key),
    {
        let mut i: usize = 0;
        while i < self.input.len()
            invariant
                i <= self.input.len(),
                forall|j: int| 0 <= j < i ==> self.input@[j] != key,
            decreases self.input.len() - i,
        {
            if self.input[i] == key {
                return true;
            }
            i += 1;
        }
        false
    }

    /// Puts `msg` at the end of the outbox. Nothing else changes, and nothing
    /// that was sent before is lost.
    pub fn send_message(&mut self, msg: Message<S>)
        ensures
            final(self).outbox@ == old(self).outbox@.push(msg),
            final(self).kept(old(self)),
    {
        self.outbox.send(msg);
    }
}

/// A copy of a list of keys.
fn copy_keys(keys: &Vec<char>) -> (copy: Vec<char>)
    ensures
        copy@ == keys@,
{
    let mut copy: Vec<char> = Vec::new();
    let mut i: usize = 0;
    while i < keys.len()
        invariant
            i <= keys.len(),
            copy@ == keys@.take(i as int),
        decreases keys.len() - i,
    {
        copy.push(keys[i]);
        assert(keys@.take(i as int).push(keys@[i as int]) == keys@.take(i + 1));
        i += 1;
    }
    assert(keys@.take(keys.len() as int) == keys@);
    copy
}

} // verus!
