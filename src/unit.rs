use crate::health::Health;
use crate::sprite::SpriteName;
use crate::tile::Tile;
use vstd::prelude::*;

verus! {

/// Allegiance of a unit.
#[derive(Clone, Copy, Debug, PartialEq, Eq, Hash, Structural)]
pub enum Side {
    Player,
    Enemy,
}

/// An entity that the renderer can draw.
pub trait HasSprite {
    spec fn sprite_spec(&self) -> SpriteName;

    fn get_sprite(&self) -> (r: SpriteName)
        ensures
            r == self.sprite_spec(),
    ;
}

/// An entity that stands on a tile.
pub trait HasTile {
    spec fn tile_spec(&self) -> Tile;

    fn get_tile(&self) -> (r: Tile)
        ensures
            r == self.tile_spec(),
    ;

    fn get_tile_x(&self) -> (r: i32)
        ensures
            r as int == self.tile_spec()@.0,
    {
        self.get_tile().x()
    }

    fn get_tile_y(&self) -> (r: i32)
        ensures
            r as int == self.tile_spec()@.1,
    {
        self.get_tile().y()
    }
}

/// The set of offsets that a sequence of tiles holds.
pub open spec fn offset_set(s: Seq<Tile>) -> Set<(int, int)> {
    Set::new(|o: (int, int)| exists|i: int| 0 <= i < s.len() && #[trigger] s[i]@ == o)
}

/// No offset occurs twice in `s`.
pub open spec fn distinct_offsets(s: Seq<Tile>) -> bool {
    forall|i: int, j: int| 0 <= i < s.len() && 0 <= j < s.len() && i != j ==> s[i]@ != s[j]@
}

/// The four orthogonal neighbours.
pub open spec fn melee_offsets() -> Set<(int, int)> {
    set![(1int, 0int), (-1int, 0int), (0int, 1int), (0int, -1int)]
}

/// An offset on a straight line through the origin, other than the origin,
/// less than `range` away from it.
pub open spec fn is_cross_offset(o: (int, int), range: int) -> bool {
    ((o.0 == 0) != (o.1 == 0)) && -range < o.0 < range && -range < o.1 < range
}

/// The offsets reachable by a straight shot shorter than `range`.
pub open spec fn ranged_offsets(range: int) -> Set<(int, int)> {
    Set::new(|o: (int, int)| is_cross_offset(o, range))
}

/// The look of a warrior: living for the enemy, undead for the player.
pub open spec fn warrior_sprite(side: Side) -> SpriteName {
    match side {
        Side::Enemy => SpriteName::Warrior,
        Side::Player => SpriteName::UndeadWarrior,
    }
}

/// The look of an archer: living for the enemy, undead for the player.
pub open spec fn archer_sprite(side: Side) -> SpriteName {
    match side {
        Side::Enemy => SpriteName::Archer,
        Side::Player => SpriteName::UndeadArcher,
    }
}

/// A warrior: moves 3, hits for 4 on the orthogonal neighbours, 10 hit points.
pub open spec fn is_warrior(u: Unit, tile: Tile, side: Side) -> bool {
    &&& u.side_spec() == side
    &&& u.movement_spec() == 3
    &&& u.damage_spec() == 4
    &&& offset_set(u.pattern_spec()) == melee_offsets()
    &&& distinct_offsets(u.pattern_spec())
    &&& u.sprite_spec() == warrior_sprite(side)
    &&& u.health_spec().max_hp() == 10
    &&& u.health_spec().current_hp() == 10
    &&& u.tile_spec() == tile
}

/// An archer: moves 3, hits for 2 in a straight line up to 2 tiles away, 5 hit points.
pub open spec fn is_archer(u: Unit, tile: Tile, side: Side) -> bool {
    &&& u.side_spec() == side
    &&& u.movement_spec() == 3
    &&& u.damage_spec() == 2
    &&& offset_set(u.pattern_spec()) == ranged_offsets(3)
    &&& distinct_offsets(u.pattern_spec())
    &&& u.sprite_spec() == archer_sprite(side)
    &&& u.health_spec().max_hp() == 5
    &&& u.health_spec().current_hp() == 5
    &&& u.tile_spec() == tile
}

/// A game entity on the grid.
#[derive(Debug)]
pub struct Unit {
    side: Side,
    movement: u16,
    damage: u16,
    attack_pattern: Vec<Tile>,
    sprite: SpriteName,
    health: Health,
    tile: Tile,
}

impl Unit {
    pub closed spec fn side_spec(self) -> Side {
        self.side
    }

    pub closed spec fn movement_spec(self) -> int {
        self.movement as int
    }

    pub closed spec fn damage_spec(self) -> int {
        self.damage as int
    }

    /// The threatened offsets, one entry per offset.
    pub closed spec fn pattern_spec(self) -> Seq<Tile> {
        self.attack_pattern@
    }

    pub closed spec fn health_spec(self) -> Health {
        self.health
    }

    /// The four orthogonal unit offsets.
    pub fn melee_attack_pattern() -> (r: Vec<Tile>)
        ensures
            offset_set(r@) == melee_offsets(),
            distinct_offsets(r@),
            r@.len() == 4,
    {
        let mut attack_pattern: Vec<Tile> = Vec::new();
        attack_pattern.push(Tile::new(1, 0));
        attack_pattern.push(Tile::new(-1, 0));
        attack_pattern.push(Tile::new(0, -1));
        attack_pattern.push(Tile::new(0, 1));
        let ghost s = attack_pattern@;
        assert(s[0]@ == (1int, 0int));
        assert(s[1]@ == (-1int, 0int));
        assert(s[2]@ == (0int, -1int));
        assert(s[3]@ == (0int, 1int));
        assert forall|o: (int, int)| #[trigger] offset_set(s).contains(o) == melee_offsets().contains(
            o,
        ) by {
            if melee_offsets().contains(o) {
                if o == (1int, 0int) {
                    assert(s[0]@ == o);
                } else if o == (-1int, 0int) {
                    assert(s[1]@ == o);
                } else if o == (0int, -1int) {
                    assert(s[2]@ == o);
                } else {
                    assert(s[3]@ == o);
                }
            }
        }
        assert(offset_set(s) =~= melee_offsets());
        attack_pattern
    }
    /// Every offset on a straight line through the origin, other than the origin
    /// itself, less than `range` away from it. Offsets are 16-bit, which bounds `range`.
    pub fn shoot_attack_pattern(range: u16) -> (r: Vec<Tile>)
        requires
            range <= 0x8000,
        ensures
            offset_set(r@) == ranged_offsets(range as int),
            distinct_offsets(r@),
            range >= 1 ==> r@.len() == 4 * (range - 1),
            range < 1 ==> r@.len() == 0,
    {
        let mut attack_pattern: Vec<Tile> = Vec::new();
        let mut d: u16 = 1;
        while d < range
            invariant
                1 <= d,
                range <= 0x8000,
                d <= range || range == 0,
                range == 0 ==> d == 1,
                attack_pattern@.len() == 4 * (d - 1),
                forall|i: int|
                    0 <= i < attack_pattern@.len() ==> is_cross_offset(
                        #[trigger] attack_pattern@[i]@,
                        d as int,
                    ),
                distinct_offsets(attack_pattern@),
                forall|o: (int, int)|
                    is_cross_offset(o, d as int) ==> #[trigger] offset_set(
                        attack_pattern@,
                    ).contains(o),
            decreases range - d,
        {
            let ghost before = attack_pattern@;
            let v = d as i16;
            attack_pattern.push(Tile::new(v, 0));
            attack_pattern.push(Tile::new(-v, 0));
            attack_pattern.push(Tile::new(0, v));
            attack_pattern.push(Tile::new(0, -v));
            let ghost s = attack_pattern@;
            let ghost n = before.len() as int;
            assert(s[n]@ == (d as int, 0int));
            assert(s[n + 1]@ == (-d as int, 0int));
            assert(s[n + 2]@ == (0int, d as int));
            assert(s[n + 3]@ == (0int, -d as int));
            assert forall|i: int| 0 <= i < n implies #[trigger] s[i]@ == before[i]@ by {}
            assert forall|o: (int, int)| is_cross_offset(o, d + 1) implies #[trigger] offset_set(
                s,
            ).contains(o) by {
                if is_cross_offset(o, d as int) {
                    assert(offset_set(before).contains(o));
                    let i = choose|i: int| 0 <= i < before.len() && #[trigger] before[i]@ == o;
                    assert(s[i]@ == o);
                } else if o == (d as int, 0int) {
                    assert(s[n]@ == o);
                } else if o == (-d as int, 0int) {
                    assert(s[n + 1]@ == o);
                } else if o == (0int, d as int) {
                    assert(s[n + 2]@ == o);
                } else {
                    assert(s[n + 3]@ == o);
                }
            }
            d = d + 1;
        }
        let ghost s = attack_pattern@;
        assert forall|o: (int, int)| #[trigger] offset_set(s).contains(o) == ranged_offsets(
            range as int,
        ).contains(o) by {
            if offset_set(s).contains(o) {
                let i = choose|i: int| 0 <= i < s.len() && #[trigger] s[i]@ == o;
                assert(is_cross_offset(s[i]@, d as int));
            }
        }
        assert(offset_set(s) =~= ranged_offsets(range as int));
        attack_pattern
    }
    pub fn warrior(tile: Tile, side: Side) -> (r: Unit)
        ensures
            is_warrior(r, tile, side),
    {
        let sprite = match side {
            Side::Enemy => SpriteName::Warrior,
            Side::Player => SpriteName::UndeadWarrior,
        };
        Unit {
            side,
            movement: 3,
            damage: 4,
            attack_pattern: Self::melee_attack_pattern(),
            sprite,
            health: Health::new(10),
            tile,
        }
    }

    pub fn archer(tile: Tile, side: Side) -> (r: Unit)
        ensures
            is_archer(r, tile, side),
    {
        let sprite = match side {
            Side::Enemy => SpriteName::Archer,
            Side::Player => SpriteName::UndeadArcher,
        };
        Unit {
            side,
            movement: 3,
            damage: 2,
            attack_pattern: Self::shoot_attack_pattern(3),
            sprite,
            health: Health::new(5),
            tile,
        }
    }

    pub fn get_side(&self) -> (r: Side)
        ensures
            r == self.side_spec(),
    {
        self.side
    }

    pub fn movement(&self) -> (r: u16)
        ensures
            r as int == self.movement_spec(),
    {
        self.movement
    }

    pub fn damage(&self) -> (r: u16)
        ensures
            r as int == self.damage_spec(),
    {
        self.damage
    }

    pub fn attack_pattern(&self) -> (r: &[Tile])
        ensures
            r@ == self.pattern_spec(),
    {
        self.attack_pattern.as_slice()
    }

    pub fn health(&self) -> (r: &Health)
        ensures
            *r == self.health_spec(),
    {
        &self.health
    }

    /// Applies `amount` to this unit's health; nothing else about the unit changes.
    pub fn take_damage(&mut self, amount: u16)
        requires
            old(self).health_spec().current_hp() - amount >= -0x8000,
        ensures
            final(self).health_spec().current_hp() == old(self).health_spec().current_hp() - amount,
            final(self).health_spec().max_hp() == old(self).health_spec().max_hp(),
            final(self).side_spec() == old(self).side_spec(),
            final(self).movement_spec() == old(self).movement_spec(),
            final(self).damage_spec() == old(self).damage_spec(),
            final(self).pattern_spec() == old(self).pattern_spec(),
            final(self).sprite_spec() == old(self).sprite_spec(),
            final(self).tile_spec() == old(self).tile_spec(),
    {
        self.health.take_damage(amount);
    }

    /// Moves this unit to `tile`; nothing else about the unit changes.
    pub fn set_tile(&mut self, tile: Tile)
        ensures
            final(self).tile_spec() == tile,
            final(self).health_spec() == old(self).health_spec(),
            final(self).side_spec() == old(self).side_spec(),
            final(self).movement_spec() == old(self).movement_spec(),
            final(self).damage_spec() == old(self).damage_spec(),
            final(self).pattern_spec() == old(self).pattern_spec(),
            final(self).sprite_spec() == old(self).sprite_spec(),
    {
        self.tile = tile;
    }
}

impl HasSprite for Unit {
    closed spec fn sprite_spec(&self) -> SpriteName {
        self.sprite
    }

    fn get_sprite(&self) -> (r: SpriteName) {
        self.sprite
    }
}

impl HasTile for Unit {
    closed spec fn tile_spec(&self) -> Tile {
        self.tile
    }

    fn get_tile(&self) -> (r: Tile) {
        self.tile
    }
}

} // verus!
