use spaceships::bus::{Broadcast, Message, MessageBody};
use spaceships::physics::Point;
use spaceships::ship::{ShipBuilder, CAYENNE, JALAPENO};
use spaceships::spawner::ShipSpawner;

#[test]
fn an_idle_spawner_never_asks() {
    let spawner = ShipSpawner::new(false);
    assert!(!spawner.is_active());
    for tick in [0, 1, 359, 360, 720, 1080, 2160] {
        assert_eq!(spawner.due(tick), None);
    }
}

#[test]
fn an_active_spawner_asks_every_360_ticks() {
    let spawner = ShipSpawner::new(true);
    assert!(spawner.is_active());
    assert_eq!(spawner.due(1), None);
    assert_eq!(spawner.due(359), None);
    assert_eq!(spawner.due(360), Some(JALAPENO));
    assert_eq!(spawner.due(361), None);
    assert_eq!(spawner.due(720), Some(JALAPENO));
    assert_eq!(spawner.due(1079), None);
    assert_eq!(spawner.due(1440), Some(JALAPENO));
}

#[test]
fn every_third_spawn_is_an_interceptor() {
    let spawner = ShipSpawner::new(true);
    assert_eq!(spawner.due(0), Some(CAYENNE));
    assert_eq!(spawner.due(1080), Some(CAYENNE));
    assert_eq!(spawner.due(2160), Some(CAYENNE));
    assert_eq!(spawner.due(1800), Some(JALAPENO));
    assert_eq!(spawner.due(u64::MAX), None);
}

#[test]
fn act_sends_a_birth_when_the_tick_is_due() {
    let spawner = ShipSpawner::new(true);
    let mut cast: Broadcast<f64> = Broadcast::new(Point::new(0.0, 0.0));
    cast.update(359);
    spawner.act(&mut cast, Point::new(1112.0, 384.0));
    assert_eq!(cast.outbox.len(), 0);
    cast.update(360);
    spawner.act(&mut cast, Point::new(1112.0, 384.0));
    cast.update(361);
    assert_eq!(
        cast.messages,
        vec![Message::new(
            0,
            0,
            MessageBody::Birth(ShipBuilder {
                id: 0,
                category: JALAPENO,
                pos: Some(Point::new(1112.0, 384.0)),
                vector: None,
            })
        )]
    );
}

#[test]
fn act_of_an_idle_spawner_sends_nothing() {
    let spawner = ShipSpawner::new(false);
    let mut cast: Broadcast<f64> = Broadcast::new(Point::new(0.0, 0.0));
    cast.update(360);
    spawner.act(&mut cast, Point::new(1.0, 2.0));
    assert_eq!(cast.outbox.len(), 0);
}
