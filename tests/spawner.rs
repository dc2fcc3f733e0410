use asteroid_field::spawner::{AsteroidSpawner, PlayField, Point, SpawnerRegistry};

fn aims() -> Vec<Point> {
    (0..10).map(|i| Point::new(i, -i)).collect()
}

#[test]
fn ring_around_viewport() {
    let mut reg = SpawnerRegistry::new();
    reg.setup_with_aims(PlayField::viewport(), &aims());
    let positions: Vec<Point> = reg.spawners.iter().map(|s| s.position).collect();
    assert_eq!(
        positions,
        vec![
            Point::new(680, 400),
            Point::new(680, -400),
            Point::new(-680, 400),
            Point::new(-680, -400),
            Point::new(-680, 0),
            Point::new(680, 0),
            Point::new(-340, 400),
            Point::new(340, 400),
            Point::new(-340, -400),
            Point::new(340, -400),
        ]
    );
    assert_eq!(reg.spawners[3], AsteroidSpawner::new(Point::new(-680, -400), Point::new(3, -3)));
}

#[test]
fn odd_field_halves_round_toward_zero() {
    let mut reg = SpawnerRegistry::new();
    reg.setup_with_aims(PlayField { half_width: 1, half_height: 0 }, &aims());
    assert_eq!(reg.spawners[0].position, Point::new(41, 40));
    assert_eq!(reg.spawners[6].position, Point::new(-20, 40));
    assert_eq!(reg.spawners[9].position, Point::new(20, -40));
}

#[test]
fn setup_replaces_and_aims_inside() {
    let mut reg = SpawnerRegistry::new();
    reg.setup(PlayField::viewport());
    reg.setup(PlayField::viewport());
    assert_eq!(reg.spawners.len(), 10);
    for s in &reg.spawners {
        assert!(s.aim.x >= -320 && s.aim.x <= 320);
        assert!(s.aim.y >= -130 && s.aim.y <= 130);
    }
}

#[test]
fn free_spawners_skip_taken_positions() {
    let mut reg = SpawnerRegistry::new();
    reg.setup_with_aims(PlayField::viewport(), &aims());
    let taken = vec![Point::new(680, 400), Point::new(-680, 0), Point::new(1, 1)];
    assert_eq!(reg.free_spawners(&taken), vec![1, 2, 3, 5, 6, 7, 8, 9]);
    assert_eq!(reg.free_spawners(&Vec::new()), (0..10).collect::<Vec<usize>>());
}
