use vstd::prelude::*;

verus! {

/// The sum of a sequence of damage amounts.
pub open spec fn total_damage(ds: Seq<u16>) -> int
    decreases ds.len(),
{
    if ds.len() == 0 {
        0
    } else {
        total_damage(ds.drop_last()) + ds.last()
    }
}

/// Hit points of one entity. `current` may drop below zero after lethal damage.
#[derive(Debug, PartialEq, Eq, Structural)]
pub struct Health {
    max: u16,
    current: i16,
}

impl Health {
    /// The hit points the entity started with.
    pub closed spec fn max_hp(self) -> int {
        self.max as int
    }

    /// The hit points the entity has now.
    pub closed spec fn current_hp(self) -> int {
        self.current as int
    }

    /// Whether the entity has no hit points left.
    pub open spec fn dead(self) -> bool {
        self.current_hp() <= 0
    }

    /// The current hit points always fit a signed 16-bit integer.
    pub proof fn lemma_current_bounds(self)
        ensures
            -0x8000 <= self.current_hp() <= 0x7fff,
            0 <= self.max_hp() <= 0xffff,
    {
    }

    /// Full health of `health` points; `current` is a signed 16-bit value, so it must fit one.
    pub fn new(health: u16) -> (r: Health)
        requires
            health <= 0x7fff,
        ensures
            r.max_hp() == health as int,
            r.current_hp() == health as int,
    {
        Health { max: health, current: health as i16 }
    }

    /// Subtracts `damage` from the current hit points, without any floor at zero.
    pub fn take_damage(&mut self, damage: u16)
        requires
            old(self).current_hp() - damage >= -0x8000,
        ensures
            final(self).current_hp() == old(self).current_hp() - damage,
            final(self).max_hp() == old(self).max_hp(),
    {
        self.current = (self.current as i32 - damage as i32) as i16;
    }

    pub fn is_dead(&self) -> (r: bool)
        ensures
            r == self.dead(),
    {
        self.current <= 0
    }

    pub fn current(&self) -> (r: i16)
        ensures
            r as int == self.current_hp(),
    {
        self.current
    }

    pub fn max(&self) -> (r: u16)
        ensures
            r as int == self.max_hp(),
    {
        self.max
    }

    /// A fresh health value is alive exactly when it starts above zero.
    pub proof fn lemma_new_alive_iff_positive(h: Health, health: u16)
        requires
            health <= 0x7fff,
            h.max_hp() == health as int,
            h.current_hp() == health as int,
        ensures
            !h.dead() <==> health > 0,
    {
    }

    /// Whatever damage was taken, death is exactly a current value at or below zero.
    pub proof fn lemma_dead_after_damage(before: Health, after: Health, damage: u16)
        requires
            after.current_hp() == before.current_hp() - damage,
        ensures
            after.dead() <==> before.current_hp() - damage <= 0,
            damage as int >= before.current_hp() ==> after.dead(),
    {
    }
    /// After any chain of damage, where each state is the one before minus the
    /// next amount, the entity is dead exactly when the total damage reaches
    /// its starting hit points.
    pub proof fn lemma_dead_after_damage_chain(states: Seq<Health>, ds: Seq<u16>)
        requires
            states.len() == ds.len() + 1,
            forall|i: int|
                0 <= i < ds.len() ==> #[trigger] states[i + 1].current_hp() == states[i].current_hp()
                    - ds[i],
        ensures
            states.last().current_hp() == states[0].current_hp() - total_damage(ds),
            states.last().dead() <==> total_damage(ds) >= states[0].current_hp(),
        decreases ds.len(),
    {
        if ds.len() > 0 {
            let n = ds.len() - 1;
            let prefix = states.subrange(0, n + 1);
            assert forall|i: int| 0 <= i < ds.drop_last().len() implies #[trigger] prefix[i
                + 1].current_hp() == prefix[i].current_hp() - ds.drop_last()[i] by {
                assert(states[i + 1].current_hp() == states[i].current_hp() - ds[i]);
            }
            Self::lemma_dead_after_damage_chain(prefix, ds.drop_last());
            assert(states[n + 1].current_hp() == states[n].current_hp() - ds[n]);
        }
    }
}

} // verus!
