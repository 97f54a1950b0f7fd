//! The game's books: the tick, the score, who was born and who died, the
//! snapshot of the ships, and how the game ends.
//!
//! A tick goes: `update`, which reads the messages of the tick before;
//! `take_snapshot`, which shows every ship as it is before any of them moves;
//! then the host moves the ships, each against the snapshot.

use std::collections::HashMap;
use vstd::prelude::*;

use crate::bus::{Broadcast, Message, MessageBody};
use crate::physics::{Point, Rectangle, Vector};
use crate::ship::{
    args_builder, is_built, shows, tagged, Catalog, Ship, ShipBuilder, ShipCache, CAYENNE,
    CHICKPEA, JALAPENO,
};
use crate::spawner::{spawn_due, ShipSpawner};
use crate::storage::ShipArgs;

verus! {

/// The id of the player's ship.
pub const PLAYER_ID: u32 = 1;

/// The level that follows a lost game.
pub const FIRST_LEVEL: &'static str = "level1";

/// What the death of a drone of `category` adds to the score.
pub open spec fn bounty(category: usize) -> int {
    if category == JALAPENO {
        100
    } else if category == CAYENNE {
        300
    } else {
        0
    }
}

/// What the reading of messages has come to: the score, how the game stands,
/// and the builders of the ships that asked to be born, in the order in which
/// they asked.
pub ghost struct Ledger<S> {
    pub score: int,
    pub victory: Option<bool>,
    pub births: Seq<ShipBuilder<S>>,
}

/// The ledger after one more message. Only messages to id 0 count. The death
/// of the player loses the game. The death of a drone scores its bounty, and
/// wins the game if no drone is left alive: none of the `survivors` and none
/// born since. A birth is noted. A later message overrules an earlier one.
pub open spec fn entry<S>(
    ledger: Ledger<S>,
    msg: Message<S>,
    player_id: u32,
    actors: Map<u32, ShipCache<S>>,
    survivors: int,
) -> Ledger<S> {
    if msg.recipient != 0 {
        ledger
    } else {
        match msg.body {
            MessageBody::Death => if msg.sender == player_id {
                Ledger { victory: Some(false), ..ledger }
            } else {
                Ledger {
                    score: ledger.score + bounty(actors[msg.sender].category),
                    victory: if survivors + ledger.births.len() == 0 {
                        Some(true)
                    } else {
                        ledger.victory
                    },
                    ..ledger
                }
            },
            MessageBody::Birth(builder) => Ledger { births: ledger.births.push(builder), ..ledger },
            _ => ledger,
        }
    }
}

/// The ledger after the messages `msgs`, read in order.
pub open spec fn ledger_after<S>(
    ledger: Ledger<S>,
    msgs: Seq<Message<S>>,
    player_id: u32,
    actors: Map<u32, ShipCache<S>>,
    survivors: int,
) -> Ledger<S>
    decreases msgs.len(),
{
    if msgs.len() == 0 {
        ledger
    } else {
        entry(
            ledger_after(ledger, msgs.drop_last(), player_id, actors, survivors),
            msgs.last(),
            player_id,
            actors,
            survivors,
        )
    }
}

/// The bounty of a category.
fn bounty_of(category: usize) -> (gain: u32)
    ensures
        gain == bounty(category),
{
    if category == JALAPENO {
        100
    } else if category == CAYENNE {
        300
    } else {
        0
    }
}

/// What the message `msg` adds to the score: the bounty of a drone whose
/// death it reports to the game, and nothing else.
pub open spec fn gain<S>(msg: Message<S>, player_id: u32, actors: Map<u32, ShipCache<S>>) -> int {
    if msg.recipient == 0 && msg.body is Death && msg.sender != player_id {
        bounty(actors[msg.sender].category)
    } else {
        0
    }
}

/// What the messages `msgs` add to the score.
pub open spec fn gains<S>(
    msgs: Seq<Message<S>>,
    player_id: u32,
    actors: Map<u32, ShipCache<S>>,
) -> int
    decreases msgs.len(),
{
    if msgs.len() == 0 {
        0
    } else {
        gains(msgs.drop_last(), player_id, actors) + gain(msgs.last(), player_id, actors)
    }
}

/// How many of the messages `msgs` ask the game for a birth.
pub open spec fn births_in<S>(msgs: Seq<Message<S>>) -> int
    decreases msgs.len(),
{
    if msgs.len() == 0 {
        0
    } else {
        births_in(msgs.drop_last()) + if msgs.last().recipient == 0 && msgs.last().body is Birth {
            1int
        } else {
            0int
        }
    }
}

/// What the first messages of a list add to the score and ask of births is
/// no more than what the whole list does.
proof fn lemma_prefix<S>(
    msgs: Seq<Message<S>>,
    i: int,
    player_id: u32,
    actors: Map<u32, ShipCache<S>>,
)
    requires
        0 <= i <= msgs.len(),
    ensures
        0 <= gains(msgs.take(i), player_id, actors) <= gains(msgs, player_id, actors),
        0 <= births_in(msgs.take(i)) <= births_in(msgs),
    decreases msgs.len(),
{
    if i == msgs.len() {
        assert(msgs.take(i) == msgs);
        if msgs.len() > 0 {
            lemma_prefix(msgs.drop_last(), i - 1, player_id, actors);
            assert(msgs.drop_last().take(i - 1) == msgs.drop_last());
        }
    } else {
        lemma_prefix(msgs.drop_last(), i, player_id, actors);
        assert(msgs.drop_last().take(i) == msgs.take(i));
        lemma_prefix(msgs.drop_last(), msgs.len() - 1, player_id, actors);
    }
}

/// The ledger's score is the score it began with and the gains of the
/// messages, and its births are as many as the messages ask for.
proof fn lemma_ledger<S>(
    ledger: Ledger<S>,
    msgs: Seq<Message<S>>,
    player_id: u32,
    actors: Map<u32, ShipCache<S>>,
    survivors: int,
)
    ensures
        ledger_after(ledger, msgs, player_id, actors, survivors).score == ledger.score + gains(
            msgs,
            player_id,
            actors,
        ),
        ledger_after(ledger, msgs, player_id, actors, survivors).births.len()
            == ledger.births.len() + births_in(msgs),
    decreases msgs.len(),
{
    if msgs.len() > 0 {
        lemma_ledger(ledger, msgs.drop_last(), player_id, actors, survivors);
    }
}

/// The messages that the game can read: every drone whose death they report
/// to the game is in the snapshot, and every ship that asks the game to be
/// born is of one of the four categories.
pub open spec fn readable<S>(
    msgs: Seq<Message<S>>,
    player_id: u32,
    actors: Map<u32, ShipCache<S>>,
) -> bool {
    forall|i: int|
        0 <= i < msgs.len() && (#[trigger] msgs[i]).recipient == 0 ==> match msgs[i].body {
            MessageBody::Death => msgs[i].sender == player_id || actors.contains_key(
                msgs[i].sender,
            ),
            MessageBody::Birth(builder) => builder.category <= CHICKPEA,
            _ => true,
        }
}

/// The books of a game: only the game writes them.
#[derive(Debug)]
pub struct Books {
    tick: u64,
    score: u32,
    spawner: ShipSpawner,
    ship_count: u32,
    victory: Option<bool>,
    next: String,
}

impl Books {
    /// The number of the last tick that began.
    pub closed spec fn tick(&self) -> u64 {
        self.tick
    }

    pub closed spec fn score(&self) -> u32 {
        self.score
    }

    pub closed spec fn spawner(&self) -> ShipSpawner {
        self.spawner
    }

    /// How many ships the game has built; also the id of the last.
    pub closed spec fn ship_count(&self) -> u32 {
        self.ship_count
    }

    /// `None` while the game runs; then whether the player has won.
    pub closed spec fn victory(&self) -> Option<bool> {
        self.victory
    }

    /// The name of the level that follows a won game.
    pub closed spec fn next(&self) -> Seq<char> {
        self.next@
    }
}

/// One of the first `n` of `mobs` has the id `id`.
pub open spec fn among<S>(mobs: Seq<Ship<S>>, n: int, id: u32) -> bool {
    exists|k: int| 0 <= k < n && (#[trigger] mobs[k]).id == id
}

/// None of the first `n` of `mobs` that come after number `i` has the id of
/// number `i`.
pub open spec fn latest<S>(mobs: Seq<Ship<S>>, n: int, i: int) -> bool {
    forall|j: int| i < j < n ==> (#[trigger] mobs[j]).id != mobs[i].id
}

/// A game: its books, its ships, the snapshot of the ships and the
/// broadcast. All but the books lie open: the host moves the ships, and they
/// read the snapshot and write to the broadcast while it does.
#[derive(Debug)]
pub struct Game<S> {
    pub books: Books,
    pub player: Ship<S>,
    /// The drones, in the order in which they were built.
    pub mobs: Vec<Ship<S>>,
    /// The snapshot of the ships, by id.
    pub cached_actors: HashMap<u32, ShipCache<S>>,
    pub cast: Broadcast<S>,
}

impl<S: Copy> Game<S> {
    /// Nothing but the score, the state of the game, the count of ships and
    /// the list of drones differs between `self` and `before`.
    pub open spec fn same_stage(&self, before: &Game<S>) -> bool {
        &&& self.books.tick() == before.books.tick()
        &&& self.books.spawner() == before.books.spawner()
        &&& self.books.next() == before.books.next()
        &&& self.player == before.player
        &&& self.cached_actors@ == before.cached_actors@
        &&& self.cast == before.cast
    }

    /// Every ship has an id of its own, and none an id above the count of
    /// ships built.
    pub open spec fn numbered(&self) -> bool {
        &&& self.player.id <= self.books.ship_count()
        &&& forall|i: int|
            0 <= i < self.mobs@.len() ==> (#[trigger] self.mobs@[i]).id <= self.books.ship_count()
                && self.mobs@[i].id != self.player.id
        &&& forall|i: int, j: int|
            0 <= i < j < self.mobs@.len() ==> (#[trigger] self.mobs@[i]).id != (
            #[trigger] self.mobs@[j]).id
    }

    /// A game before its first tick. The player's ship gets id 1, the drones
    /// the ids from 2 on, in the order of `mobs`.
    pub fn new(
        player: &ShipArgs<S>,
        mobs: &Vec<ShipArgs<S>>,
        spawner: bool,
        next: String,
        catalog: &Catalog<S>,
    ) -> (game: Game<S>)
        requires
            player.0 <= CHICKPEA,
            forall|i: int| 0 <= i < mobs.len() ==> (#[trigger] mobs[i]).0 <= CHICKPEA,
            mobs.len() < u32::MAX,
        ensures
            game.books.tick() == 0,
            game.books.score() == 0,
            game.books.spawner().active() == spawner,
            game.books.ship_count() == mobs.len() + 1,
            game.books.victory().is_none(),
            game.books.next() == next@,
            is_built(game.player, tagged(args_builder(*player), PLAYER_ID as int), *catalog),
            game.mobs@.len() == mobs.len(),
            forall|i: int|
                0 <= i < mobs.len() ==> is_built(
                    #[trigger] game.mobs@[i],
                    tagged(args_builder(mobs[i]), i + 2),
                    *catalog,
                ),
            game.numbered(),
            game.cached_actors@ == Map::<u32, ShipCache<S>>::empty(),
            game.cast.tick == 0,
            game.cast.cursor == catalog.origin,
            game.cast.input@ == Seq::<char>::empty(),
            game.cast.player_id.is_none(),
            game.cast.player_position == catalog.origin,
            game.cast.messages@ == Seq::<Message<S>>::empty(),
            game.cast.outbox@ == Seq::<Message<S>>::empty(),
    {
        let mut game = Game {
            books: Books {
                tick: 0,
                score: 0,
                spawner: ShipSpawner::new(spawner),
                ship_count: 1,
                victory: None,
                next,
            },
            player: ShipBuilder::from(player).tag(PLAYER_ID).build(catalog),
            mobs: Vec::new(),
            cached_actors: HashMap::new(),
            cast: Broadcast::new(catalog.origin),
        };
        let ghost fresh = game;
        let mut i: usize = 0;
        while i < mobs.len()
            invariant
                i <= mobs.len(),
                mobs.len() < u32::MAX,
                forall|k: int| 0 <= k < mobs.len() ==> (#[trigger] mobs[k]).0 <= CHICKPEA,
                game.same_stage(&fresh),
                game.books.score() == 0,
                game.books.victory().is_none(),
                game.books.ship_count() == i + 1,
                game.mobs@.len() == i,
                game.numbered(),
                forall|k: int|
                    0 <= k < i ==> is_built(
                        #[trigger] game.mobs@[k],
                        tagged(args_builder(mobs[k]), k + 2),
                        *catalog,
                    ),
            decreases mobs.len() - i,
        {
            let ghost before = game.mobs@;
            game.create_ship(ShipBuilder::from(&mobs[i]), catalog);
            assert forall|k: int| 0 <= k < i implies game.mobs@[k] == before[k] by {
                assert(game.mobs@.drop_last()[k] == before[k]);
            }
            assert forall|k: int| 0 <= k < i + 1 implies is_built(
                #[trigger] game.mobs@[k],
                tagged(args_builder(mobs[k]), k + 2),
                *catalog,
            ) by {
                if k < i {
                    assert(game.mobs@[k] == before[k]);
                } else {
                    assert(game.mobs@[k] == game.mobs@.last());
                }
            }
            i += 1;
        }
        game
    }

    /// The game can read the messages `msgs`: each of them can be read, the
    /// score has room for what they add to it, and the count of ships for
    /// the births they ask for.
    pub open spec fn can_read(&self, msgs: Seq<Message<S>>) -> bool {
        &&& readable(msgs, self.player.id, self.cached_actors@)
        &&& self.books.score() + gains(msgs, self.player.id, self.cached_actors@) <= u32::MAX
        &&& self.books.ship_count() + births_in(msgs) <= u32::MAX
    }

    /// What `update` asks: that the tick can be counted, and that the game
    /// can read what the outbox holds.
    pub open spec fn can_update(&self) -> bool {
        &&& self.books.tick() < u64::MAX
        &&& self.can_read(self.cast.outbox@)
    }

    /// Whether `update` can be called.
    pub fn ready(&self) -> (ok: bool)
        ensures
            ok == self.can_update(),
    {
        if self.books.tick == u64::MAX {
            return false;
        }
        self.reads(self.cast.outbox.waiting())
    }

    /// Whether the game can read the messages `msgs`.
    pub fn reads(&self, msgs: &Vec<Message<S>>) -> (ok: bool)
        ensures
            ok == self.can_read(msgs@),
    {
        let n: usize = msgs.len();
        let mut score: u32 = self.books.score;
        let mut count: u32 = self.books.ship_count;
        let mut i: usize = 0;
        while i < n
            invariant
                i <= n,
                n == msgs@.len(),
                readable(msgs@.take(i as int), self.player.id, self.cached_actors@),
                score == self.books.score + gains(
                    msgs@.take(i as int),
                    self.player.id,
                    self.cached_actors@,
                ),
                count == self.books.ship_count + births_in(msgs@.take(i as int)),
            decreases n - i,
        {
            let msg = msgs[i];
            let ghost next = msgs@.take(i + 1);
            proof {
                assert(next.drop_last() == msgs@.take(i as int));
                assert(next.last() == msg);
                assert(msgs@[i as int] == msg);
                lemma_prefix(msgs@, i + 1, self.player.id, self.cached_actors@);
            }
            if msg.recipient == 0 {
                match msg.body {
                    MessageBody::Death => {
                        if msg.sender != self.player.id {
                            let gain: u32 = match self.cached_actors.get(&msg.sender) {
                                Some(cache) => bounty_of(cache.category),
                                None => {
                                    return false;
                                },
                            };
                            if gain > u32::MAX - score {
                                return false;
                            }
                            score += gain;
                        }
                    },
                    MessageBody::Birth(builder) => {
                        if builder.category > CHICKPEA || count == u32::MAX {
                            return false;
                        }
                        count += 1;
                    },
                    _ => {},
                }
            }
            assert forall|k: int| 0 <= k < i + 1 && (#[trigger] next[k]).recipient
                == 0 implies match next[k].body {
                MessageBody::Death => next[k].sender == self.player.id
                    || self.cached_actors@.contains_key(next[k].sender),
                MessageBody::Birth(builder) => builder.category <= CHICKPEA,
                _ => true,
            } by {
                if k < i {
                    assert(msgs@.take(i as int)[k] == next[k]);
                }
            }
            i += 1;
        }
        assert(msgs@.take(n as int) == msgs@);
        true
    }

    /// Begins a tick: counts it, turns the outbox of the tick before into
    /// the messages to read, takes over the pressed keys and the cursor,
    /// reads the messages, and lets the spawner ask for its drone, to be
    /// placed at `site`. `survivors` is the number of drones whose health
    /// holds. The result says whether the game goes on.
    pub fn update(
        &mut self,
        pressed: &Vec<char>,
        cursor: Point<S>,
        survivors: usize,
        site: Point<S>,
        catalog: &Catalog<S>,
    ) -> (running: bool)
        requires
            old(self).can_update(),
        ensures
            running == final(self).books.victory().is_none(),
            final(self).books.tick() == old(self).books.tick() + 1,
            final(self).books.spawner() == old(self).books.spawner(),
            final(self).books.next() == old(self).books.next(),
            final(self).player == old(self).player,
            final(self).cached_actors@ == old(self).cached_actors@,
            final(self).cast.tick == final(self).books.tick(),
            final(self).cast.cursor == cursor,
            final(self).cast.input@ == pressed@,
            final(self).cast.player_id == old(self).cast.player_id,
            final(self).cast.player_position == old(self).cast.player_position,
            final(self).cast.messages@ == old(self).cast.outbox@,
            final(self).cast.outbox@ == match spawn_due(
                final(self).books.spawner().active(),
                final(self).books.tick(),
            ) {
                Some(category) => seq![
                    Message {
                        recipient: 0,
                        sender: 0,
                        body: MessageBody::Birth(
                            ShipBuilder { id: 0, category, pos: Some(site), vector: None },
                        ),
                    },
                ],
                None => Seq::<Message<S>>::empty(),
            },
            final(self).books_after(old(self), old(self).cast.outbox@, survivors, *catalog),
            old(self).numbered() ==> final(self).numbered(),
    {
        self.books.tick += 1;
        self.cast.update(self.books.tick);
        self.cast.set_pressed(pressed);
        self.cast.move_cursor(&cursor);
        self.read_messages(survivors, catalog);
        self.books.spawner.act(&mut self.cast, site);
        self.books.victory.is_none()
    }

    /// The score, the state of the game, the count of ships and the drones
    /// are what the reading of `msgs` makes of those of `before`: the ledger
    /// gives the score and the state, and each birth in it has added one
    /// drone, built from its builder under the next id.
    pub open spec fn books_after(
        &self,
        before: &Game<S>,
        msgs: Seq<Message<S>>,
        survivors: usize,
        catalog: Catalog<S>,
    ) -> bool {
        let ledger = ledger_after(
            Ledger {
                score: before.books.score() as int,
                victory: before.books.victory(),
                births: Seq::empty(),
            },
            msgs,
            before.player.id,
            before.cached_actors@,
            survivors as int,
        );
        &&& self.books.score() == ledger.score
        &&& self.books.victory() == ledger.victory
        &&& self.books.ship_count() == before.books.ship_count() + ledger.births.len()
        &&& self.mobs@.len() == before.mobs@.len() + ledger.births.len()
        &&& self.mobs@.take(before.mobs@.len() as int) == before.mobs@
        &&& forall|k: int|
            0 <= k < ledger.births.len() ==> is_built(
                #[trigger] self.mobs@[before.mobs@.len() + k],
                tagged(ledger.births[k], before.books.ship_count() + k + 1),
                catalog,
            )
    }

    /// Shows every ship as it is now: empties the snapshot, puts in the
    /// player's ship with `player_path` for its path and then each drone with
    /// its path out of `mob_paths`, and records the player on the broadcast.
    /// Where two ships have one id, the snapshot shows the later.
    pub fn take_snapshot(&mut self, player_path: Rectangle<S>, mob_paths: &Vec<Rectangle<S>>)
        requires
            mob_paths.len() == old(self).mobs@.len(),
        ensures
            forall|id: u32|
                final(self).cached_actors@.contains_key(id) <==> id == old(self).player.id || among(
                    old(self).mobs@,
                    old(self).mobs@.len() as int,
                    id,
                ),
            !among(old(self).mobs@, old(self).mobs@.len() as int, old(self).player.id) ==> shows(
                final(self).cached_actors@[old(self).player.id],
                old(self).player,
                player_path,
            ),
            forall|i: int|
                0 <= i < old(self).mobs@.len() && latest(
                    old(self).mobs@,
                    old(self).mobs@.len() as int,
                    i,
                ) ==> shows(
                    final(self).cached_actors@[#[trigger] old(self).mobs@[i].id],
                    old(self).mobs@[i],
                    mob_paths[i],
                ),
            old(self).numbered() ==> shows(
                final(self).cached_actors@[old(self).player.id],
                old(self).player,
                player_path,
            ) && forall|i: int|
                0 <= i < old(self).mobs@.len() ==> shows(
                    final(self).cached_actors@[#[trigger] old(self).mobs@[i].id],
                    old(self).mobs@[i],
                    mob_paths[i],
                ),
            final(self).cast.player_id == Some(old(self).player.id),
            final(self).cast.player_position == (Point {
                x: final(self).cached_actors@[old(self).player.id].circle.x,
                y: final(self).cached_actors@[old(self).player.id].circle.y,
            }),
            final(self).cast.tick == old(self).cast.tick,
            final(self).cast.cursor == old(self).cast.cursor,
            final(self).cast.input@ == old(self).cast.input@,
            final(self).cast.messages@ == old(self).cast.messages@,
            final(self).cast.outbox@ == old(self).cast.outbox@,
            final(self).books == old(self).books,
            final(self).player == old(self).player,
            final(self).mobs == old(self).mobs,
    {
        self.cached_actors.clear();
        self.cached_actors.insert(self.player.get_id(), self.player.get_cache(player_path));
        let mut i: usize = 0;
        while i < self.mobs.len()
            invariant
                i <= self.mobs.len(),
                mob_paths.len() == self.mobs.len(),
                self.mobs == old(self).mobs,
                self.player == old(self).player,
                self.cast == old(self).cast,
                self.books == old(self).books,
                forall|id: u32|
                    self.cached_actors@.contains_key(id) <==> id == self.player.id || among(
                        self.mobs@,
                        i as int,
                        id,
                    ),
                forall|id: u32| #[trigger]
                    self.cached_actors@.contains_key(id) ==> self.cached_actors@[id].id == id,
                !among(self.mobs@, i as int, self.player.id) ==> shows(
                    self.cached_actors@[self.player.id],
                    self.player,
                    player_path,
                ),
                forall|k: int|
                    0 <= k < i && latest(self.mobs@, i as int, k) ==> shows(
                        self.cached_actors@[#[trigger] self.mobs@[k].id],
                        self.mobs@[k],
                        mob_paths[k],
                    ),
            decreases self.mobs.len() - i,
        {
            let cache = self.mobs[i].get_cache(mob_paths[i]);
            let ghost shown = self.cached_actors@;
            self.cached_actors.insert(self.mobs[i].get_id(), cache);
            proof {
                let mobs = self.mobs@;
                assert forall|id: u32|
                    self.cached_actors@.contains_key(id) <==> id == self.player.id || among(
                        mobs,
                        i + 1,
                        id,
                    ) by {
                    if id == mobs[i as int].id {
                        assert(among(mobs, i + 1, id));
                    }
                    if among(mobs, i as int, id) {
                        let k = choose|k: int| 0 <= k < i && #[trigger] mobs[k].id == id;
                        assert(among(mobs, i + 1, id));
                    }
                    if among(mobs, i + 1, id) && id != mobs[i as int].id {
                        let k = choose|k: int| 0 <= k < i + 1 && #[trigger] mobs[k].id == id;
                        assert(among(mobs, i as int, id));
                    }
                }
                assert forall|k: int| 0 <= k < i + 1 && latest(mobs, i + 1, k) implies shows(
                    self.cached_actors@[#[trigger] mobs[k].id],
                    mobs[k],
                    mob_paths[k],
                ) by {
                    if k < i {
                        assert(mobs[i as int].id != mobs[k].id);
                        assert(latest(mobs, i as int, k));
                    }
                }
                if !among(mobs, i + 1, self.player.id) {
                    assert(mobs[i as int].id != self.player.id);
                    assert(!among(mobs, i as int, self.player.id)) by {
                        if among(mobs, i as int, self.player.id) {
                            let k = choose|k: int|
                                0 <= k < i && #[trigger] mobs[k].id == self.player.id;
                            assert(among(mobs, i + 1, self.player.id));
                        }
                    }
                }
            }
            i += 1;
        }
        assert(self.cached_actors@.contains_key(self.player.id));
        self.cast.record_actors(&self.cached_actors, Some(self.player.get_id()));
    }

    pub fn get_broadcast(&self) -> (cast: &Broadcast<S>)
        ensures
            *cast == self.cast,
    {
        &self.cast
    }

    pub fn get_tick(&self) -> (tick: u64)
        ensures
            tick == self.books.tick(),
    {
        self.books.tick
    }

    pub fn get_score(&self) -> (score: u32)
        ensures
            score == self.books.score(),
    {
        self.books.score
    }

    pub fn get_victory(&self) -> (victory: Option<bool>)
        ensures
            victory == self.books.victory(),
    {
        self.books.victory
    }

    /// The player's health as the snapshot shows it.
    pub fn get_player_health(&self) -> (health: S)
        requires
            self.cached_actors@.contains_key(self.player.id),
        ensures
            health == self.cached_actors@[self.player.id].health,
    {
        let cache = self.cached_actors.get(&self.player.id);
        match cache {
            Some(c) => c.health,
            None => self.player.health,
        }
    }

    /// Numbers a ship that is to be born, builds it and puts it with the
    /// drones.
    pub fn create_ship(&mut self, ship: ShipBuilder<S>, catalog: &Catalog<S>)
        requires
            ship.category <= CHICKPEA,
            old(self).books.ship_count() < u32::MAX,
        ensures
            final(self).same_stage(old(self)),
            final(self).books.score() == old(self).books.score(),
            final(self).books.victory() == old(self).books.victory(),
            final(self).books.ship_count() == old(self).books.ship_count() + 1,
            final(self).mobs@.len() == old(self).mobs@.len() + 1,
            final(self).mobs@.drop_last() == old(self).mobs@,
            is_built(
                final(self).mobs@.last(),
                tagged(ship, final(self).books.ship_count() as int),
                *catalog,
            ),
            old(self).numbered() ==> final(self).numbered(),
    {
        self.books.ship_count += 1;
        let built = ship.tag(self.books.ship_count).build(catalog);
        self.mobs.push(built);
        assert(self.mobs@.drop_last() == old(self).mobs@);
        assert forall|i: int| 0 <= i < old(self).mobs@.len() implies self.mobs@[i] == old(
            self,
        ).mobs@[i] by {
            assert(self.mobs@.drop_last()[i] == old(self).mobs@[i]);
        }
    }

    /// Reads the messages of the tick before that are meant for the game, in
    /// order: deaths are booked, births are carried out. `survivors` is the
    /// number of drones whose health holds.
    pub fn read_messages(&mut self, survivors: usize, catalog: &Catalog<S>)
        requires
            old(self).can_read(old(self).cast.messages@),
        ensures
            final(self).same_stage(old(self)),
            final(self).books_after(old(self), old(self).cast.messages@, survivors, *catalog),
            old(self).numbered() ==> final(self).numbered(),
    {
        let n: usize = self.cast.messages.len();
        let mut i: usize = 0;
        let mut born: usize = 0;
        let ghost start = Ledger::<S> {
            score: self.books.score as int,
            victory: self.books.victory,
            births: Seq::empty(),
        };
        let ghost msgs = self.cast.messages@;
        let ghost mut ledger = start;
        while i < n
            invariant
                i <= n,
                n == msgs.len(),
                msgs == self.cast.messages@,
                msgs == old(self).cast.messages@,
                self.same_stage(old(self)),
                old(self).can_read(msgs),
                start == (Ledger::<S> {
                    score: old(self).books.score as int,
                    victory: old(self).books.victory,
                    births: Seq::empty(),
                }),
                ledger == ledger_after(
                    start,
                    msgs.take(i as int),
                    self.player.id,
                    self.cached_actors@,
                    survivors as int,
                ),
                born == ledger.births.len(),
                born <= i,
                old(self).numbered() ==> self.numbered(),
                self.books.score == ledger.score,
                self.books.victory == ledger.victory,
                self.books.ship_count == old(self).books.ship_count + born,
                self.mobs@.len() == old(self).mobs@.len() + born,
                self.mobs@.take(old(self).mobs@.len() as int) == old(self).mobs@,
                forall|k: int|
                    0 <= k < born ==> is_built(
                        #[trigger] self.mobs@[old(self).mobs@.len() + k],
                        tagged(ledger.births[k], old(self).books.ship_count + k + 1),
                        *catalog,
                    ),
            decreases n - i,
        {
            let msg = self.cast.messages[i];
            let ghost mobs_before = self.mobs@;
            proof {
                assert(msgs.take(i + 1).drop_last() == msgs.take(i as int));
                assert(msgs.take(i + 1).last() == msg);
                assert(msgs[i as int] == msg);
                let (pid, shown) = (self.player.id, self.cached_actors@);
                lemma_prefix(msgs, i + 1, pid, shown);
                lemma_ledger(start, msgs.take(i as int), pid, shown, survivors as int);
                lemma_ledger(start, msgs.take(i + 1), pid, shown, survivors as int);
            }
            if msg.recipient == 0 {
                match msg.body {
                    MessageBody::Death => {
                        self.process_death(msg.sender, survivors == 0 && born == 0);
                    },
                    MessageBody::Birth(ship) => {
                        self.create_ship(ship, catalog);
                        born += 1;
                    },
                    _ => {},
                }
            }
            proof {
                let ghost earlier = ledger;
                ledger = entry(ledger, msg, self.player.id, self.cached_actors@, survivors as int);
                if self.mobs@.len() > mobs_before.len() {
                    assert(self.mobs@[mobs_before.len() as int] == self.mobs@.last());
                    assert(ledger.births.len() == earlier.births.len() + 1);
                    assert(forall|k: int|
                        0 <= k < earlier.births.len() ==> ledger.births[k] == earlier.births[k]);
                } else {
                    assert(ledger.births == earlier.births);
                }
                assert forall|k: int| 0 <= k < mobs_before.len() implies self.mobs@[k]
                    == mobs_before[k] by {
                    if self.mobs@.len() > mobs_before.len() {
                        assert(self.mobs@.drop_last()[k] == mobs_before[k]);
                    }
                }
                assert forall|k: int| 0 <= k < ledger.births.len() implies is_built(
                    #[trigger] self.mobs@[old(self).mobs@.len() + k],
                    tagged(ledger.births[k], old(self).books.ship_count + k + 1),
                    *catalog,
                ) by {
                    let at = old(self).mobs@.len() + k;
                    if k < earlier.births.len() {
                        assert(self.mobs@[at] == mobs_before[at]);
                        assert(ledger.births[k] == earlier.births[k]);
                    } else {
                        assert(self.mobs@[at] == self.mobs@.last());
                    }
                }
                let first = old(self).mobs@;
                assert(self.mobs@.take(first.len() as int) =~= first) by {
                    assert forall|k: int| 0 <= k < first.len() implies self.mobs@[k]
                        == first[k] by {
                        assert(mobs_before.take(first.len() as int)[k] == first[k]);
                    }
                }
            }
            i += 1;
        }
        proof {
            assert(msgs.take(n as int) == msgs);
        }
    }

    /// Books the death of the ship with id `id`. The player's death loses the
    /// game. A drone's death scores the bounty of its category, and wins the
    /// game if `none_left` says that no drone is alive.
    pub fn process_death(&mut self, id: u32, none_left: bool)
        requires
            id == old(self).player.id || (old(self).cached_actors@.contains_key(id)
                && old(self).books.score() + bounty(old(self).cached_actors@[id].category)
                <= u32::MAX),
        ensures
            final(self).same_stage(old(self)),
            final(self).books.ship_count() == old(self).books.ship_count(),
            final(self).mobs@ == old(self).mobs@,
            final(self).numbered() == old(self).numbered(),
            final(self).books.score() == if id == old(self).player.id {
                old(self).books.score() as int
            } else {
                old(self).books.score() + bounty(old(self).cached_actors@[id].category)
            },
            final(self).books.victory() == if id == old(self).player.id {
                Some(false)
            } else if none_left {
                Some(true)
            } else {
                old(self).books.victory()
            },
    {
        if id == self.player.get_id() {
            self.books.victory = Some(false);
            return ;
        }
        let category: usize = match self.cached_actors.get(&id) {
            Some(cache) => cache.category,
            None => CHICKPEA,
        };
        self.books.score += bounty_of(category);
        if none_left {
            self.books.victory = Some(true);
        }
    }

    /// The name of the level to play next: the next level after a victory,
    /// the first level after a defeat.
    pub fn get_successor_args(&self) -> (level: String)
        requires
            self.books.victory().is_some(),
        ensures
            level@ == if self.books.victory() == Some(true) {
                self.books.next()
            } else {
                FIRST_LEVEL@
            },
    {
        match self.books.victory {
            Some(true) => self.books.next.clone(),
            _ => FIRST_LEVEL.to_owned(),
        }
    }
}

} // verus!
