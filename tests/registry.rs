use gift::tile::Tile;
use gift::unit::{HasTile, Side, Unit};
use gift::units::{UnitId, Units};
use gift::utils::{get_two, IndexError};

#[test]
fn unit_id_default_and_next() {
    let z = UnitId::default();
    assert_eq!(z.value(), 0);
    assert_eq!(z.next(), UnitId::new(1));
    assert_eq!(UnitId::new(41).next().value(), 42);
}

#[test]
fn make_unit_ids_strictly_increase() {
    let mut units = Units::new();
    let mut last = 0u32;
    for i in 0..5 {
        let id = units.make_unit(Unit::warrior(Tile::new(i, 0), Side::Enemy));
        assert!(id.value() > last);
        assert_eq!(id.value(), last + 1);
        last = id.value();
    }
    assert_eq!(units.len(), 5);
}

#[test]
fn get_unit_mut_returns_made_unit() {
    let mut units = Units::new();
    let a = units.make_unit(Unit::archer(Tile::new(2, 9), Side::Enemy));
    let w = units.make_unit(Unit::warrior(Tile::new(-1, 4), Side::Player));
    let u = units.get_unit_mut(w).unwrap();
    assert_eq!(u.get_tile(), Tile::new(-1, 4));
    assert_eq!(u.damage(), 4);
    assert_eq!(u.get_side(), Side::Player);
    let v = units.get_unit_mut(a).unwrap();
    assert_eq!(v.get_tile(), Tile::new(2, 9));
    assert_eq!(v.damage(), 2);
}

#[test]
fn get_unit_mut_unknown_id_is_none() {
    let mut units = Units::new();
    assert!(units.get_unit_mut(UnitId::default()).is_none());
    assert!(units.get_unit_mut(UnitId::new(1)).is_none());
    let id = units.make_unit(Unit::warrior(Tile::new(0, 0), Side::Player));
    assert!(units.get_unit_mut(id.next()).is_none());
    assert!(units.get_unit_mut(UnitId::new(0)).is_none());
    assert!(units.get_unit_mut(id).is_some());
}

#[test]
fn registry_end_to_end() {
    let mut units = Units::new();
    assert_eq!(units.iter().len(), 0);
    let w = units.make_unit(Unit::warrior(Tile::new(3, 3), Side::Player));
    let a = units.make_unit(Unit::archer(Tile::new(5, 3), Side::Player));
    let mut tiles: Vec<(i32, i32)> = units.iter().iter().map(|u| (u.get_tile_x(), u.get_tile_y())).collect();
    tiles.sort();
    assert_eq!(tiles, vec![(3, 3), (5, 3)]);

    let warrior = units.get_unit_mut(w).unwrap();
    let max = warrior.health().max();
    assert_eq!(max, 10);
    assert_eq!(warrior.health().current(), 10);
    assert!(!warrior.health().is_dead());
    warrior.take_damage(max);
    assert!(warrior.health().is_dead());

    let archer = units.get_unit_mut(a).unwrap();
    assert_eq!(archer.health().current(), 5);
    assert!(!archer.health().is_dead());
}

#[test]
fn get_two_mut_same_id_is_error() {
    let mut units = Units::new();
    let k = units.make_unit(Unit::warrior(Tile::new(3, 3), Side::Player));
    assert_eq!(units.get_two_mut(k, k).err(), Some(IndexError));
    let u = units.get_unit_mut(k).unwrap();
    assert_eq!(u.health().current(), 10);
    assert_eq!(u.get_tile(), Tile::new(3, 3));
}

#[test]
fn get_two_mut_unknown_id_is_error() {
    let mut units = Units::new();
    let k = units.make_unit(Unit::warrior(Tile::new(3, 3), Side::Player));
    assert!(units.get_two_mut(k, UnitId::new(2)).is_err());
    assert!(units.get_two_mut(UnitId::default(), k).is_err());
}

#[test]
fn get_two_mut_distinct_ids() {
    let mut units = Units::new();
    let w = units.make_unit(Unit::warrior(Tile::new(3, 3), Side::Player));
    let a = units.make_unit(Unit::archer(Tile::new(5, 3), Side::Enemy));
    {
        let (ua, uw) = units.get_two_mut(a, w).unwrap();
        assert_eq!(ua.damage(), 2);
        uw.take_damage(ua.damage());
        ua.set_tile(Tile::new(4, 3));
    }
    assert_eq!(units.get_unit_mut(w).unwrap().health().current(), 8);
    assert_eq!(units.get_unit_mut(a).unwrap().get_tile(), Tile::new(4, 3));
}

#[test]
fn get_two_on_vec() {
    let mut v = vec![1, 2, 3, 4];
    {
        let (a, b) = get_two(&mut v, 3, 1).unwrap();
        assert_eq!((*a, *b), (4, 2));
        std::mem::swap(a, b);
    }
    assert_eq!(v, vec![1, 4, 3, 2]);
}

#[test]
fn get_two_rejects_bad_indices() {
    let mut v = vec![1, 2, 3];
    assert_eq!(get_two(&mut v, 1, 1).err(), Some(IndexError));
    assert_eq!(get_two(&mut v, 0, 3).err(), Some(IndexError));
    assert_eq!(get_two(&mut v, 5, 0).err(), Some(IndexError));
    assert_eq!(v, vec![1, 2, 3]);
    assert_eq!(IndexError.description(), "invalid indicies were used");
}

#[test]
fn get_all_views_every_element() {
    let mut v = vec![10, 20, 30];
    {
        let views = gift::utils::get_all(&mut v);
        assert_eq!(views.len(), 3);
        for r in views {
            *r += 1;
        }
    }
    assert_eq!(v, vec![11, 21, 31]);
    let mut empty: Vec<u8> = Vec::new();
    assert!(gift::utils::get_all(&mut empty).is_empty());
}
