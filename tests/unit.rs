use gift::sprite::SpriteName;
use gift::tile::Tile;
use gift::unit::{HasSprite, HasTile, Side, Unit};

fn sorted(ts: &[Tile]) -> Vec<(i32, i32)> {
    let mut v: Vec<(i32, i32)> = ts.iter().map(|t| (t.x(), t.y())).collect();
    v.sort();
    v
}

#[test]
fn melee_pattern_is_four_neighbours() {
    let p = Unit::melee_attack_pattern();
    assert_eq!(sorted(&p), vec![(-1, 0), (0, -1), (0, 1), (1, 0)]);
    assert_eq!(sorted(&Unit::melee_attack_pattern()), sorted(&p));
}

#[test]
fn ranged_pattern_of_three() {
    let p = Unit::shoot_attack_pattern(3);
    assert_eq!(
        sorted(&p),
        vec![(-2, 0), (-1, 0), (0, -2), (0, -1), (0, 1), (0, 2), (1, 0), (2, 0)]
    );
}

#[test]
fn ranged_pattern_degenerate_ranges_are_empty() {
    assert!(Unit::shoot_attack_pattern(0).is_empty());
    assert!(Unit::shoot_attack_pattern(1).is_empty());
}

#[test]
fn ranged_pattern_of_two_and_largest() {
    assert_eq!(sorted(&Unit::shoot_attack_pattern(2)), vec![(-1, 0), (0, -1), (0, 1), (1, 0)]);
    let big = Unit::shoot_attack_pattern(32768);
    assert_eq!(big.len(), 4 * 32767);
    assert!(big.iter().any(|t| t.x() == -32767 && t.y() == 0));
    assert!(big.iter().all(|t| (t.x() == 0) != (t.y() == 0)));
}

#[test]
fn warrior_stats_and_looks() {
    let w = Unit::warrior(Tile::new(3, 3), Side::Player);
    assert_eq!(w.get_side(), Side::Player);
    assert_eq!(w.movement(), 3);
    assert_eq!(w.damage(), 4);
    assert_eq!(w.health().max(), 10);
    assert_eq!(w.health().current(), 10);
    assert_eq!(w.get_sprite(), SpriteName::UndeadWarrior);
    assert_eq!(w.get_tile(), Tile::new(3, 3));
    assert_eq!(sorted(w.attack_pattern()), vec![(-1, 0), (0, -1), (0, 1), (1, 0)]);
    let e = Unit::warrior(Tile::new(0, 1), Side::Enemy);
    assert_eq!(e.get_sprite(), SpriteName::Warrior);
    assert_eq!(e.get_side(), Side::Enemy);
}

#[test]
fn archer_stats_and_looks() {
    let a = Unit::archer(Tile::new(5, 3), Side::Player);
    assert_eq!(a.movement(), 3);
    assert_eq!(a.damage(), 2);
    assert_eq!(a.health().max(), 5);
    assert_eq!(a.get_sprite(), SpriteName::UndeadArcher);
    assert_eq!(a.attack_pattern().len(), 8);
    assert_eq!(Unit::archer(Tile::new(0, 0), Side::Enemy).get_sprite(), SpriteName::Archer);
}

#[test]
fn unit_tile_accessors_and_move() {
    let mut u = Unit::archer(Tile::new(-2, 7), Side::Enemy);
    assert_eq!(u.get_tile_x(), -2);
    assert_eq!(u.get_tile_y(), 7);
    u.set_tile(Tile::new(4, 4));
    assert_eq!(u.get_tile(), Tile::new(4, 4));
    assert_eq!(u.health().current(), 5);
}

#[test]
fn unit_take_damage_only_touches_health() {
    let mut u = Unit::warrior(Tile::new(1, 1), Side::Enemy);
    u.take_damage(4);
    assert_eq!(u.health().current(), 6);
    assert_eq!(u.get_tile(), Tile::new(1, 1));
    assert_eq!(u.damage(), 4);
}
