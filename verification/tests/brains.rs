use std::collections::HashMap;
use std::f64::consts::{FRAC_PI_2, TAU};

use spaceships::ai::{
    build_brain, player_is_present, BellBrain, Brain, CayenneBrain, ChickpeaBrain, Directive,
    Helm, JalapenoBrain, Senses,
};
use spaceships::bus::Broadcast;
use spaceships::physics::{Circle, Point, Rectangle, Vector};
use spaceships::ship::{ShipCache, BELL, CAYENNE, CHICKPEA, JALAPENO};

const DT: f64 = 1.0 / 60.0;

fn helm() -> Helm<f64> {
    Helm { port: -TAU * DT, starboard: TAU * DT, scan: FRAC_PI_2 * DT, full: 1.0 }
}

fn cast_with_keys(keys: &[char]) -> Broadcast<f64> {
    let mut cast = Broadcast::new(Point::new(0.0, 0.0));
    cast.set_pressed(&keys.to_vec());
    cast.move_cursor(&Point::new(300.0, 200.0));
    cast
}

fn cache(id: u32, category: usize, x: f64, y: f64) -> ShipCache<f64> {
    ShipCache {
        id,
        category,
        vector: Vector::new(0.0, 0.0),
        circle: Circle::new(x, y, 16.0),
        health: 25.0,
        direction: 0.0,
        force: 24.0,
        mass: 0.8,
        elasticity: 2.0 / 3.0,
        trajectory: Rectangle::new(x - 16.0, y - 16.0, 32.0, 32.0),
        actions: Vec::new(),
    }
}

fn cast_with_player(x: f64, y: f64) -> Broadcast<f64> {
    let mut cast = Broadcast::new(Point::new(0.0, 0.0));
    cast.record_player(&cache(1, BELL, x, y));
    cast
}

/// A snapshot that shows the player, with id 1, and two drones.
fn with_player() -> HashMap<u32, ShipCache<f64>> {
    let mut actors = without_player();
    actors.insert(1, cache(1, BELL, 100.0, 50.0));
    actors
}

/// A snapshot that shows two drones and no player.
fn without_player() -> HashMap<u32, ShipCache<f64>> {
    let mut actors = HashMap::new();
    actors.insert(2, cache(2, JALAPENO, 0.0, 0.0));
    actors.insert(3, cache(3, CAYENNE, 10.0, 0.0));
    actors
}

const BLIND: Senses<f64> = Senses { clear: false, bearing: None };
const SEEING: Senses<f64> = Senses { clear: true, bearing: None };

/// Whether the circle lies across the segment from `a` to `b`: an end inside
/// it, or the foot of its centre on the segment inside it.
fn blocks(a: (f64, f64), b: (f64, f64), c: (f64, f64, f64)) -> bool {
    let inside = |p: (f64, f64)| (p.0 - c.0).hypot(p.1 - c.1) < c.2;
    if inside(a) || inside(b) {
        return true;
    }
    let len = (b.0 - a.0).hypot(b.1 - a.1);
    let dot = ((c.0 - a.0) * (b.0 - a.0) + (c.1 - a.1) * (b.1 - a.1)) / (len * len);
    let foot = (a.0 + dot * (b.0 - a.0), a.1 + dot * (b.1 - a.1));
    let on = (len - ((foot.0 - a.0).hypot(foot.1 - a.1) + (foot.0 - b.0).hypot(foot.1 - b.1))).abs()
        <= 0.001;
    inside(foot) && on
}

#[test]
fn bell_without_keys_plans_nothing() {
    let mut brain = BellBrain::new(1);
    assert_eq!(brain.think(&helm(), &cast_with_keys(&[])), Vec::<Directive<f64>>::new());
}

#[test]
fn bell_mouse_aims_at_the_cursor_and_thrusts() {
    let mut brain = BellBrain::new(1);
    assert_eq!(
        brain.think(&helm(), &cast_with_keys(&['M'])),
        vec![Directive::Aim(Point::new(300.0, 200.0)), Directive::Thrust(1.0)]
    );
}

#[test]
fn bell_mouse_overrides_the_keys() {
    let mut brain = BellBrain::new(1);
    assert_eq!(
        brain.think(&helm(), &cast_with_keys(&['L', 'B', 'M', 'T'])),
        vec![Directive::Aim(Point::new(300.0, 200.0)), Directive::Thrust(1.0)]
    );
}

#[test]
fn bell_single_keys() {
    let mut brain = BellBrain::new(1);
    assert_eq!(brain.think(&helm(), &cast_with_keys(&['L'])), vec![Directive::Rotate(-TAU * DT)]);
    assert_eq!(brain.think(&helm(), &cast_with_keys(&['R'])), vec![Directive::Rotate(TAU * DT)]);
    assert_eq!(brain.think(&helm(), &cast_with_keys(&['T'])), vec![Directive::Thrust(1.0)]);
    assert_eq!(brain.think(&helm(), &cast_with_keys(&['B'])), vec![Directive::Brake]);
}

#[test]
fn bell_keys_combine_in_a_fixed_order() {
    let mut brain = BellBrain::new(1);
    assert_eq!(
        brain.think(&helm(), &cast_with_keys(&['B', 'T', 'R', 'L'])),
        vec![
            Directive::Rotate(-TAU * DT),
            Directive::Rotate(TAU * DT),
            Directive::Thrust(1.0),
            Directive::Brake,
        ]
    );
    assert_eq!(
        brain.think(&helm(), &cast_with_keys(&['T', 'L'])),
        vec![Directive::Rotate(-TAU * DT), Directive::Thrust(1.0)]
    );
}

#[test]
fn bell_ignores_other_keys() {
    let mut brain = BellBrain::new(1);
    assert_eq!(
        brain.think(&helm(), &cast_with_keys(&['x', 'm', 'T', ' '])),
        vec![Directive::Thrust(1.0)]
    );
}

#[test]
fn jalapeno_scans_until_it_sees_the_player() {
    let mut brain: JalapenoBrain<f64> = JalapenoBrain::new(2);
    let cast = cast_with_player(100.0, 50.0);
    assert_eq!(brain.think(&helm(), &cast, &with_player(), &BLIND), vec![Directive::Rotate(FRAC_PI_2 * DT)]);
    assert!(!brain.is_active());
    assert_eq!(brain.get_target(), None);
    assert_eq!(
        brain.think(&helm(), &cast, &with_player(), &SEEING),
        vec![Directive::Aim(Point::new(100.0, 50.0)), Directive::Thrust(1.0)]
    );
    assert!(brain.is_active());
    assert_eq!(brain.get_target(), Some(Point::new(100.0, 50.0)));
}

#[test]
fn jalapeno_stays_engaged_and_remembers_the_last_sighting() {
    let mut brain: JalapenoBrain<f64> = JalapenoBrain::new(2);
    brain.think(&helm(), &cast_with_player(100.0, 50.0), &with_player(), &SEEING);
    // The player moves on behind cover: the brain makes for the old place.
    assert_eq!(
        brain.think(&helm(), &cast_with_player(400.0, 400.0), &with_player(), &BLIND),
        vec![Directive::Aim(Point::new(100.0, 50.0)), Directive::Thrust(1.0)]
    );
    // Seen again: the target moves too.
    assert_eq!(
        brain.think(&helm(), &cast_with_player(400.0, 400.0), &with_player(), &SEEING),
        vec![Directive::Aim(Point::new(400.0, 400.0)), Directive::Thrust(1.0)]
    );
}

#[test]
fn jalapeno_without_a_player_has_no_target() {
    let mut brain: JalapenoBrain<f64> = JalapenoBrain::new(2);
    let cast: Broadcast<f64> = Broadcast::new(Point::new(0.0, 0.0));
    assert_eq!(brain.think(&helm(), &cast, &with_player(), &SEEING), vec![Directive::Rotate(FRAC_PI_2 * DT)]);
    assert!(!brain.is_active());
}

#[test]
fn occluded_target_keeps_the_wanderer_scanning() {
    // The drone sits at the origin, the player at (200, 0), and an asteroid
    // of radius 30 half way between them.
    let me = (0.0, 0.0);
    let player = (200.0, 0.0);
    let rock = (100.0, 0.0, 30.0);
    let mut brain: JalapenoBrain<f64> = JalapenoBrain::new(2);
    let cast = cast_with_player(player.0, player.1);
    for _ in 0..10 {
        let senses = Senses { clear: !blocks(player, me, rock), bearing: None };
        assert!(!senses.clear);
        let plan = brain.think(&helm(), &cast, &with_player(), &senses);
        assert_eq!(plan, vec![Directive::Rotate(FRAC_PI_2 * DT)]);
        assert!(!brain.is_active());
    }
    // The asteroid out of the way, the drone engages.
    let aside = (100.0, 80.0, 30.0);
    let senses = Senses { clear: !blocks(player, me, aside), bearing: None };
    assert!(senses.clear);
    assert_eq!(
        brain.think(&helm(), &cast, &with_player(), &senses),
        vec![Directive::Aim(Point::new(200.0, 0.0)), Directive::Thrust(1.0)]
    );
}

#[test]
fn cayenne_scans_until_it_sees_the_player() {
    let mut brain: CayenneBrain<f64> = CayenneBrain::new(3);
    let cast = cast_with_player(100.0, 50.0);
    let blind = Senses { clear: false, bearing: Some(0.75) };
    assert_eq!(brain.think(&helm(), &cast, &with_player(), &blind), vec![Directive::Rotate(FRAC_PI_2 * DT)]);
    assert!(!brain.is_active());
    let seeing = Senses { clear: true, bearing: Some(0.75) };
    assert_eq!(
        brain.think(&helm(), &cast, &with_player(), &seeing),
        vec![Directive::SetDirection(0.75), Directive::Thrust(1.0)]
    );
    assert!(brain.is_active());
    assert_eq!(brain.get_target(), Some(Point::new(100.0, 50.0)));
    let later = Senses { clear: false, bearing: Some(-1.25) };
    assert_eq!(
        brain.think(&helm(), &cast, &with_player(), &later),
        vec![Directive::SetDirection(-1.25), Directive::Thrust(1.0)]
    );
}

#[test]
fn cayenne_without_a_bearing_turns_on_the_spot() {
    let mut brain: CayenneBrain<f64> = CayenneBrain::new(3);
    brain.think(&helm(), &cast_with_player(100.0, 50.0), &with_player(), &SEEING);
    assert!(brain.is_active());
    // The player is gone: no bearing, no panic, and the engagement stays.
    let gone: Broadcast<f64> = Broadcast::new(Point::new(0.0, 0.0));
    assert_eq!(brain.think(&helm(), &gone, &with_player(), &BLIND), vec![Directive::Rotate(FRAC_PI_2 * DT)]);
    assert!(brain.is_active());
}

#[test]
fn chickpea_follows_the_bearing_of_the_flock() {
    let mut brain = ChickpeaBrain::new(4);
    let with = Senses { clear: false, bearing: Some(2.5) };
    assert_eq!(
        brain.think(&helm(), &cast_with_player(0.0, 0.0), &with_player(), &with),
        vec![Directive::SetDirection(2.5), Directive::Thrust(1.0)]
    );
    assert_eq!(
        brain.think(&helm(), &cast_with_player(0.0, 0.0), &with_player(), &BLIND),
        Vec::<Directive<f64>>::new()
    );
}

#[test]
fn chickpea_flockmates_are_the_other_swarm_drones() {
    let brain = ChickpeaBrain::new(4);
    assert!(brain.is_flockmate(&cache(5, CHICKPEA, 0.0, 0.0)));
    assert!(!brain.is_flockmate(&cache(4, CHICKPEA, 0.0, 0.0)));
    assert!(!brain.is_flockmate(&cache(5, JALAPENO, 0.0, 0.0)));
    assert!(!brain.is_flockmate(&cache(1, BELL, 0.0, 0.0)));
    assert!(!brain.is_flockmate(&cache(6, CAYENNE, 0.0, 0.0)));
}

#[test]
fn build_brain_by_category() {
    assert!(matches!(build_brain::<f64>(BELL, 11), Brain::Bell(b) if b.get_id() == 11));
    assert!(matches!(build_brain::<f64>(JALAPENO, 12), Brain::Jalapeno(b) if b.get_id() == 12));
    assert!(matches!(build_brain::<f64>(CAYENNE, 13), Brain::Cayenne(b) if b.get_id() == 13));
    assert!(matches!(build_brain::<f64>(CHICKPEA, 14), Brain::Chickpea(b) if b.get_id() == 14));
}

#[test]
fn any_brain_thinks_as_its_kind_does() {
    let cast = {
        let mut cast = cast_with_player(100.0, 50.0);
        cast.set_pressed(&vec!['T']);
        cast
    };
    let senses = Senses { clear: true, bearing: Some(0.5) };
    let mut bell: Brain<f64> = build_brain(BELL, 1);
    assert_eq!(bell.think(&helm(), &cast, &with_player(), &senses), vec![Directive::Thrust(1.0)]);
    let mut jalapeno: Brain<f64> = build_brain(JALAPENO, 2);
    assert_eq!(
        jalapeno.think(&helm(), &cast, &with_player(), &senses),
        vec![Directive::Aim(Point::new(100.0, 50.0)), Directive::Thrust(1.0)]
    );
    let mut cayenne: Brain<f64> = build_brain(CAYENNE, 3);
    assert_eq!(
        cayenne.think(&helm(), &cast, &with_player(), &senses),
        vec![Directive::SetDirection(0.5), Directive::Thrust(1.0)]
    );
    let mut chickpea: Brain<f64> = build_brain(CHICKPEA, 4);
    assert_eq!(
        chickpea.think(&helm(), &cast, &with_player(), &senses),
        vec![Directive::SetDirection(0.5), Directive::Thrust(1.0)]
    );
}

#[test]
fn a_wanderer_does_not_latch_onto_a_player_that_the_snapshot_does_not_show() {
    // The broadcast still names player 1 at (200, 0), and the way there is
    // free, but the snapshot holds no ship 1.
    let cast = cast_with_player(200.0, 0.0);
    assert_eq!(cast.player_id, Some(1));
    let mut brain: JalapenoBrain<f64> = JalapenoBrain::new(2);
    for _ in 0..3 {
        assert_eq!(
            brain.think(&helm(), &cast, &without_player(), &SEEING),
            vec![Directive::Rotate(FRAC_PI_2 * DT)]
        );
        assert!(!brain.is_active());
        assert_eq!(brain.get_target(), None);
    }
    // An empty snapshot is no better.
    assert_eq!(
        brain.think(&helm(), &cast, &HashMap::new(), &SEEING),
        vec![Directive::Rotate(FRAC_PI_2 * DT)]
    );
    // Once the snapshot shows the player, the wanderer engages.
    assert_eq!(
        brain.think(&helm(), &cast, &with_player(), &SEEING),
        vec![Directive::Aim(Point::new(200.0, 0.0)), Directive::Thrust(1.0)]
    );
}

#[test]
fn an_engaged_wanderer_keeps_its_target_when_the_player_is_gone() {
    let mut brain: JalapenoBrain<f64> = JalapenoBrain::new(2);
    brain.think(&helm(), &cast_with_player(100.0, 50.0), &with_player(), &SEEING);
    assert_eq!(
        brain.think(&helm(), &cast_with_player(300.0, 300.0), &without_player(), &SEEING),
        vec![Directive::Aim(Point::new(100.0, 50.0)), Directive::Thrust(1.0)]
    );
    assert_eq!(brain.get_target(), Some(Point::new(100.0, 50.0)));
}

#[test]
fn an_interceptor_does_not_latch_onto_a_player_that_the_snapshot_does_not_show() {
    let cast = cast_with_player(200.0, 0.0);
    let senses = Senses { clear: true, bearing: Some(0.75) };
    let mut brain: CayenneBrain<f64> = CayenneBrain::new(3);
    assert_eq!(
        brain.think(&helm(), &cast, &without_player(), &senses),
        vec![Directive::Rotate(FRAC_PI_2 * DT)]
    );
    assert!(!brain.is_active());
    assert_eq!(brain.get_target(), None);
}

#[test]
fn an_engaged_interceptor_turns_on_the_spot_while_the_player_is_gone() {
    let senses = Senses { clear: true, bearing: Some(0.75) };
    let mut brain: CayenneBrain<f64> = CayenneBrain::new(3);
    let cast = cast_with_player(200.0, 0.0);
    assert_eq!(
        brain.think(&helm(), &cast, &with_player(), &senses),
        vec![Directive::SetDirection(0.75), Directive::Thrust(1.0)]
    );
    // The player is named but not shown: no pursuit, whatever the bearing.
    assert_eq!(
        brain.think(&helm(), &cast, &without_player(), &senses),
        vec![Directive::Rotate(FRAC_PI_2 * DT)]
    );
    assert!(brain.is_active());
    // Back in the snapshot, the player is pursued again.
    assert_eq!(
        brain.think(&helm(), &cast, &with_player(), &senses),
        vec![Directive::SetDirection(0.75), Directive::Thrust(1.0)]
    );
}

#[test]
fn a_swarm_drone_does_nothing_without_a_player() {
    let senses = Senses { clear: true, bearing: Some(2.5) };
    let mut brain = ChickpeaBrain::new(4);
    let named = cast_with_player(200.0, 0.0);
    assert_eq!(
        brain.think(&helm(), &named, &without_player(), &senses),
        Vec::<Directive<f64>>::new()
    );
    let unnamed: Broadcast<f64> = Broadcast::new(Point::new(0.0, 0.0));
    assert_eq!(
        brain.think(&helm(), &unnamed, &with_player(), &senses),
        Vec::<Directive<f64>>::new()
    );
    assert_eq!(
        brain.think(&helm(), &named, &with_player(), &senses),
        vec![Directive::SetDirection(2.5), Directive::Thrust(1.0)]
    );
}

#[test]
fn any_brain_asks_the_snapshot_for_the_player() {
    let cast = cast_with_player(100.0, 50.0);
    let senses = Senses { clear: true, bearing: Some(0.5) };
    let scan = vec![Directive::Rotate(FRAC_PI_2 * DT)];
    let mut jalapeno: Brain<f64> = build_brain(JALAPENO, 2);
    assert_eq!(jalapeno.think(&helm(), &cast, &without_player(), &senses), scan);
    let mut cayenne: Brain<f64> = build_brain(CAYENNE, 3);
    assert_eq!(cayenne.think(&helm(), &cast, &without_player(), &senses), scan);
    let mut chickpea: Brain<f64> = build_brain(CHICKPEA, 4);
    assert!(chickpea.think(&helm(), &cast, &without_player(), &senses).is_empty());
}

#[test]
fn the_player_is_present_when_named_and_shown() {
    let named = cast_with_player(100.0, 50.0);
    let unnamed: Broadcast<f64> = Broadcast::new(Point::new(0.0, 0.0));
    assert!(player_is_present(&named, &with_player()));
    assert!(!player_is_present(&named, &without_player()));
    assert!(!player_is_present(&unnamed, &with_player()));
    assert!(!player_is_present(&unnamed, &HashMap::new()));
}
