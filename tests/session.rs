use asteroid_field::kind::AsteroidKind;
use asteroid_field::session::{
    split_fragments, Asteroid, Placement, Session, SpawnAsteroid, SpawnAsteroids,
};
use asteroid_field::spawner::{PlayField, Point};

fn request(kind: AsteroidKind, id: usize) -> SpawnAsteroid {
    SpawnAsteroid::new(kind, Placement::Fragment { turn: 0 }, id)
}

fn kill(session: &mut Session, entity: u64) {
    let hp = session.asteroids[&entity].health.current();
    for i in 0..hp {
        assert_eq!(session.shot(entity), i + 1 == hp);
    }
}

fn started() -> Session {
    let mut session = Session::new();
    let first = session.start(PlayField::viewport());
    assert_eq!(first.len(), 5);
    session
}

#[test]
fn split_makes_three_turned_fragments() {
    let mut session = started();
    session.spawn_asteroid(1, &request(AsteroidKind::Basic, 77));
    kill(&mut session, 1);
    let out = session.asteroid_destroyed_with(1, true);
    assert!(out.despawn);
    assert_eq!(out.points, 1);
    assert!(!out.health_pickup);
    assert_eq!(out.replenish, 0);
    let turns: Vec<i8> = out
        .fragments
        .iter()
        .map(|f| match f.placement {
            Placement::Fragment { turn } => turn,
            Placement::AtSpawner { .. } => panic!("fragment placed at a spawner"),
        })
        .collect();
    assert_eq!(turns, vec![-1, 0, 1]);
    for f in &out.fragments {
        assert_eq!(f.kind, AsteroidKind::SmallBasic);
        assert_eq!(f.id, 77);
    }
    assert!(!session.asteroids.contains_key(&1));
}

#[test]
fn advanced_splits_into_small_advanced() {
    let a = Asteroid::new(AsteroidKind::Advanced, 5);
    let frags = split_fragments(&a);
    assert_eq!(frags.len(), 3);
    assert_eq!(frags[0], SpawnAsteroid::new(AsteroidKind::SmallAdvanced, Placement::Fragment { turn: -1 }, 5));
    assert_eq!(frags[2], SpawnAsteroid::new(AsteroidKind::SmallAdvanced, Placement::Fragment { turn: 1 }, 5));
}

#[test]
fn lineage_completes_after_three_fragments() {
    let mut session = started();
    for e in [10u64, 11, 12] {
        session.spawn_asteroid(e, &request(AsteroidKind::SmallBasic, 42));
    }
    kill(&mut session, 10);
    let out = session.asteroid_destroyed_with(10, false);
    assert_eq!(out.replenish, 0);
    assert_eq!(session.small_asteroids.count(42), 1);

    let again = session.asteroid_destroyed_with(10, false);
    assert!(!again.despawn);
    assert_eq!(again.replenish, 0);
    assert_eq!(again.points, 0);
    assert_eq!(session.small_asteroids.count(42), 1);

    kill(&mut session, 11);
    assert_eq!(session.asteroid_destroyed_with(11, false).replenish, 0);
    assert_eq!(session.small_asteroids.count(42), 2);

    kill(&mut session, 12);
    assert_eq!(session.asteroid_destroyed_with(12, false).replenish, 1);
    assert!(!session.small_asteroids.0.contains_key(&42));
    assert_eq!(session.score.current, 3);
}

#[test]
fn score_basic_then_advanced() {
    let mut session = started();
    session.spawn_asteroid(1, &request(AsteroidKind::Basic, 0));
    session.spawn_asteroid(2, &request(AsteroidKind::Advanced, 1));
    kill(&mut session, 1);
    assert_eq!(session.asteroid_destroyed(1).points, 1);
    assert_eq!(session.score.current, 1);
    kill(&mut session, 2);
    assert_eq!(session.asteroid_destroyed(2).points, 5);
    assert_eq!(session.score.current, 6);
}

#[test]
fn small_shot_down_may_leave_pickup() {
    let mut session = started();
    session.spawn_asteroid(3, &request(AsteroidKind::SmallAdvanced, 9));
    kill(&mut session, 3);
    let out = session.asteroid_destroyed_with(3, true);
    assert!(out.health_pickup);
    assert_eq!(out.points, 5);
    assert!(out.fragments.is_empty());
    session.spawn_asteroid(4, &request(AsteroidKind::SmallAdvanced, 9));
    kill(&mut session, 4);
    assert!(!session.asteroid_destroyed_with(4, false).health_pickup);
}

#[test]
fn large_leaving_play_is_replaced() {
    let mut session = started();
    session.spawn_asteroid(5, &request(AsteroidKind::Advanced, 3));
    assert!(!session.shot(5));
    let out = session.asteroid_destroyed_with(5, true);
    assert!(out.despawn);
    assert_eq!(out.points, 0);
    assert_eq!(out.replenish, 1);
    assert!(out.fragments.is_empty());
    assert!(!out.health_pickup);
    assert_eq!(session.score.current, 0);
}

#[test]
fn small_leaving_play_still_counts() {
    let mut session = started();
    session.spawn_asteroid(6, &request(AsteroidKind::SmallBasic, 8));
    let out = session.asteroid_destroyed_with(6, true);
    assert!(out.despawn);
    assert_eq!(out.points, 0);
    assert!(!out.health_pickup);
    assert_eq!(out.replenish, 0);
    assert_eq!(session.small_asteroids.count(8), 1);
}

#[test]
fn stale_notification_is_ignored() {
    let mut session = started();
    let out = session.asteroid_destroyed(99);
    assert!(!out.despawn);
    assert_eq!(out.points, 0);
    assert_eq!(out.replenish, 0);
    assert!(out.fragments.is_empty());
    assert!(!session.shot(99));
}

#[test]
fn start_spawns_five_large_with_fresh_ids() {
    let mut session = Session::new();
    let first = session.start(PlayField::viewport());
    assert_eq!(first.len(), 5);
    for (k, r) in first.iter().enumerate() {
        assert_eq!(r.id, k);
        assert!(r.kind == AsteroidKind::Basic || r.kind == AsteroidKind::Advanced);
    }
    assert_eq!(session.ids.0, 5);
    assert_eq!(session.score.current, 0);
}

#[test]
fn replenish_uses_distinct_positions() {
    let mut session = started();
    let batch = session.replenish(SpawnAsteroids::new(10).amount);
    assert_eq!(batch.len(), 10);
    let mut seen: Vec<Point> = Vec::new();
    for (k, r) in batch.iter().enumerate() {
        assert_eq!(r.id, 5 + k);
        match r.placement {
            Placement::AtSpawner { position, aim } => {
                assert!(!seen.contains(&position));
                assert!(session.spawners.spawners.iter().any(|s| s.position == position && s.aim == aim));
                seen.push(position);
            }
            Placement::Fragment { .. } => panic!("replenished asteroid placed as a fragment"),
        }
    }
    assert!(session.replenish(0).is_empty());
}

#[test]
fn spawn_from_uses_the_spawner() {
    let mut session = started();
    let s = session.spawners.spawners[4];
    let r = session.spawn_from(4, false);
    assert_eq!(r, SpawnAsteroid::new(AsteroidKind::Advanced, Placement::AtSpawner { position: s.position, aim: s.aim }, 5));
    let r = session.spawn_from(0, true);
    assert_eq!(r.kind, AsteroidKind::Basic);
    assert_eq!(r.id, 6);
}

#[test]
fn restart_forgets_the_session() {
    let mut session = started();
    session.spawn_asteroid(1, &request(AsteroidKind::SmallBasic, 2));
    kill(&mut session, 1);
    session.asteroid_destroyed_with(1, false);
    session.spawn_asteroid(2, &request(AsteroidKind::Basic, 3));
    let again = session.start(PlayField::viewport());
    assert_eq!(again.len(), 5);
    assert_eq!(again[0].id, 5);
    assert_eq!(session.score.current, 0);
    assert!(session.asteroids.is_empty());
    assert_eq!(session.small_asteroids.count(2), 0);
}
