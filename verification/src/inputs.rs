//! What the player holds down, and whether the game runs.

use vstd::prelude::*;

use crate::physics::Point;

verus! {

/// `keys` without its first `key`, if it holds one.
pub open spec fn released(keys: Seq<char>, key: char) -> Seq<char>
    decreases keys.len(),
{
    if keys.len() == 0 {
        keys
    } else if keys[0] == key {
        keys.drop_first()
    } else {
        seq![keys[0]] + released(keys.drop_first(), key)
    }
}

/// `keys` with `key` held down as well: at the end, unless it is there.
pub open spec fn pressed(keys: Seq<char>, key: char) -> Seq<char> {
    if keys.contains(key) {
        keys
    } else {
        keys.push(key)
    }
}

/// Taking out the first `key` of a list is taking out the entry at the first
/// place where `key` stands.
proof fn lemma_released_at(keys: Seq<char>, key: char, i: int)
    requires
        0 <= i < keys.len(),
        keys[i] == key,
        forall|j: int| 0 <= j < i ==> keys[j] != key,
    ensures
        released(keys, key) == keys.remove(i),
    decreases i,
{
    if i > 0 {
        let rest = keys.drop_first();
        assert forall|j: int| 0 <= j < i - 1 implies rest[j] != key by {
            assert(rest[j] == keys[j + 1]);
        }
        lemma_released_at(rest, key, i - 1);
        assert(seq![keys[0]] + rest.remove(i - 1) == keys.remove(i));
    } else {
        assert(keys.drop_first() == keys.remove(0));
    }
}

/// A list that does not hold `key` loses nothing when `key` is released.
proof fn lemma_released_absent(keys: Seq<char>, key: char)
    requires
        !keys.contains(key),
    ensures
        released(keys, key) == keys,
    decreases keys.len(),
{
    if keys.len() > 0 {
        assert(keys[0] != key);
        let rest = keys.drop_first();
        assert forall|j: int| 0 <= j < rest.len() implies rest[j] != key by {
            assert(rest[j] == keys[j + 1]);
        }
        lemma_released_absent(rest, key);
        assert(seq![keys[0]] + rest == keys);
    }
}

/// Releasing a key that is not held changes nothing; releasing one that is
/// held, in a list that holds no key twice, leaves a list without it, one
/// shorter, that holds no key twice.
pub proof fn lemma_released(keys: Seq<char>, key: char)
    requires
        keys.no_duplicates(),
    ensures
        !released(keys, key).contains(key),
        released(keys, key).no_duplicates(),
        keys.contains(key) ==> released(keys, key).len() == keys.len() - 1,
        !keys.contains(key) ==> released(keys, key) == keys,
        forall|other: char|
            other != key ==> (released(keys, key).contains(other) <==> keys.contains(other)),
{
    if keys.contains(key) {
        let i = choose|i: int| 0 <= i < keys.len() && keys[i] == key;
        lemma_released_at(keys, key, i);
        let after = keys.remove(i);
        assert forall|a: int| 0 <= a < after.len() implies after[a] != key by {
            if a < i {
                assert(after[a] == keys[a]);
            } else {
                assert(after[a] == keys[a + 1]);
            }
        }
        assert forall|a: int, b: int|
            0 <= a < after.len() && 0 <= b < after.len() && a != b implies after[a] != after[b] by {
            let a0 = if a < i { a } else { a + 1 };
            let b0 = if b < i { b } else { b + 1 };
            assert(after[a] == keys[a0] && after[b] == keys[b0]);
        }
        assert forall|other: char| other != key implies (after.contains(other) <==> keys.contains(
            other,
        )) by {
            if keys.contains(other) {
                let k = choose|k: int| 0 <= k < keys.len() && keys[k] == other;
                let k0 = if k < i { k } else { k - 1 };
                assert(after[k0] == other);
            }
            if after.contains(other) {
                let k = choose|k: int| 0 <= k < after.len() && after[k] == other;
                let k0 = if k < i { k } else { k + 1 };
                assert(keys[k0] == other);
            }
        }
    } else {
        lemma_released_absent(keys, key);
    }
}

/// The keys that are held down, in the order in which they went down, and
/// where the cursor is. No key is held twice.
#[derive(Debug)]
pub struct Inputs<S> {
    pressed: Vec<char>,
    cursor: Point<S>,
}

impl<S: Copy> Inputs<S> {
    /// No key is held twice.
    pub closed spec fn wf(&self) -> bool {
        self.pressed@.no_duplicates()
    }

    /// The keys held down, oldest first.
    pub closed spec fn pressed(&self) -> Seq<char> {
        self.pressed@
    }

    pub closed spec fn cursor(&self) -> Point<S> {
        self.cursor
    }

    /// Nothing is held, and the cursor is at `origin`.
    pub fn new(origin: Point<S>) -> (inputs: Inputs<S>)
        ensures
            inputs.wf(),
            inputs.pressed() == Seq::<char>::empty(),
            inputs.cursor() == origin,
    {
        Inputs { pressed: Vec::new(), cursor: origin }
    }

    pub fn get_pressed(&self) -> (keys: &Vec<char>)
        ensures
            keys@ == self.pressed(),
    {
        &self.pressed
    }

    /// What `wf` says of the keys held.
    pub proof fn lemma_distinct(&self)
        requires
            self.wf(),
        ensures
            self.pressed().no_duplicates(),
    {
    }

    pub fn get_cursor(&self) -> (cursor: Point<S>)
        ensures
            cursor == self.cursor(),
    {
        self.cursor
    }

    /// `button` goes down. A button that is down already stays where it is.
    pub fn press(&mut self, button: char)
        requires
            old(self).wf(),
        ensures
            final(self).wf(),
            final(self).pressed() == pressed(old(self).pressed(), button),
            final(self).cursor() == old(self).cursor(),
    {
        let mut i: usize = 0;
        while i < self.pressed.len()
            invariant
                *self == *old(self),
                self.wf(),
                i <= self.pressed.len(),
                forall|j: int| 0 <= j < i ==> self.pressed@[j] != button,
            decreases self.pressed.len() - i,
        {
            if self.pressed[i] == button {
                assert(self.pressed@[i as int] == button);
                return ;
            }
            i += 1;
        }
        self.pressed.push(button);
    }

    /// `released` goes up. The other buttons keep their order.
    pub fn release(&mut self, released: char)
        requires
            old(self).wf(),
        ensures
            final(self).wf(),
            final(self).pressed() == self::released(old(self).pressed(), released),
            final(self).cursor() == old(self).cursor(),
    {
        let mut i: usize = 0;
        while i < self.pressed.len()
            invariant
                *self == *old(self),
                self.wf(),
                i <= self.pressed.len(),
                forall|j: int| 0 <= j < i ==> self.pressed@[j] != released,
            decreases self.pressed.len() - i,
        {
            if self.pressed[i] == released {
                proof {
                    lemma_released(self.pressed@, released);
                    lemma_released_at(self.pressed@, released, i as int);
                }
                self.pressed.remove(i);
                return ;
            }
            i += 1;
        }
        proof {
            lemma_released(self.pressed@, released);
        }
    }

    pub fn move_cursor(&mut self, x: S, y: S)
        ensures
            final(self).wf() == old(self).wf(),
            final(self).pressed() == old(self).pressed(),
            final(self).cursor() == (Point { x, y }),
    {
        self.cursor = Point::new(x, y);
    }
}

/// Whether the game runs or waits.
#[derive(Clone, Copy, Debug, PartialEq, Eq, Structural)]
pub enum GameState {
    Running,
    Paused,
}

impl GameState {
    /// A running game pauses; a paused game runs again.
    pub fn pause(&mut self)
        ensures
            *final(self) == match *old(self) {
                GameState::Running => GameState::Paused,
                GameState::Paused => GameState::Running,
            },
    {
        *self = match *self {
            GameState::Running => GameState::Paused,
            GameState::Paused => GameState::Running,
        };
    }
}

} // verus!
