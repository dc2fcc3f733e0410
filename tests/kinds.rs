use asteroid_field::kind::AsteroidKind;
use asteroid_field::lineage::AsteroidID;
use asteroid_field::stats::{Health, Score};

#[test]
fn smaller_kind_mapping() {
    assert_eq!(AsteroidKind::Basic.get_smaller(), AsteroidKind::SmallBasic);
    assert_eq!(AsteroidKind::Advanced.get_smaller(), AsteroidKind::SmallAdvanced);
    assert_eq!(AsteroidKind::SmallBasic.get_smaller(), AsteroidKind::SmallBasic);
    assert_eq!(AsteroidKind::SmallAdvanced.get_smaller(), AsteroidKind::SmallAdvanced);
}

#[test]
fn kind_attributes() {
    assert_eq!(AsteroidKind::Basic.get_health(), 1);
    assert_eq!(AsteroidKind::SmallBasic.get_health(), 1);
    assert_eq!(AsteroidKind::Advanced.get_health(), 3);
    assert_eq!(AsteroidKind::SmallAdvanced.get_health(), 3);
    assert_eq!(AsteroidKind::Basic.get_points(), 1);
    assert_eq!(AsteroidKind::SmallBasic.get_points(), 1);
    assert_eq!(AsteroidKind::Advanced.get_points(), 5);
    assert_eq!(AsteroidKind::SmallAdvanced.get_points(), 5);
    assert_eq!(AsteroidKind::Basic.get_collider_radius(), 28);
    assert_eq!(AsteroidKind::Advanced.get_collider_radius(), 28);
    assert_eq!(AsteroidKind::SmallBasic.get_collider_radius(), 14);
    assert_eq!(AsteroidKind::SmallAdvanced.get_collider_radius(), 14);
    assert!(!AsteroidKind::Basic.is_smaller());
    assert!(!AsteroidKind::Advanced.is_smaller());
    assert!(AsteroidKind::SmallBasic.is_smaller());
    assert!(AsteroidKind::SmallAdvanced.is_smaller());
}

#[test]
fn kind_names() {
    assert_eq!(AsteroidKind::Basic.get_name(), "BasicAsteroid");
    assert_eq!(AsteroidKind::SmallBasic.get_name(), "SmallBasicAsteroid");
    assert_eq!(AsteroidKind::Advanced.get_name(), "AdvancedAsteroid");
    assert_eq!(AsteroidKind::SmallAdvanced.get_name(), "SmallAdvancedAsteroid");
}

#[test]
fn ids_count_up_from_zero() {
    let mut ids = AsteroidID::new();
    assert_eq!(ids.get(), 0);
    assert_eq!(ids.get(), 1);
    assert_eq!(ids.get(), 2);
    assert_eq!(ids.0, 3);
}

#[test]
fn ids_wrap_after_the_largest() {
    let mut ids = AsteroidID(usize::MAX);
    assert_eq!(ids.get(), usize::MAX);
    assert_eq!(ids.get(), 0);
    assert_eq!(ids.get(), 1);
}

#[test]
fn health_saturates_and_clamps() {
    let mut h = Health::new(3);
    assert_eq!(h.current(), 3);
    h.sub(1);
    assert_eq!(h.current(), 2);
    h.add(5);
    assert_eq!(h.current(), 3);
    h.sub(10);
    assert_eq!(h.current(), 0);
    h.add(u16::MAX);
    assert_eq!(h.current(), 3);
    assert_eq!(h.max, 3);
}

#[test]
fn score_saturates() {
    let mut s = Score::new();
    s.award(6);
    assert_eq!(s.current, 6);
    s.award(u32::MAX);
    assert_eq!(s.current, u32::MAX);
    assert_eq!(s.high, 0);
}
