use crate::unit::Unit;
use crate::utils::{get_two, IndexError};
use vstd::prelude::*;

verus! {

/// Handle of a unit inside a registry. The default handle is zero, which no unit gets.
#[derive(Clone, Copy, Debug, PartialEq, Eq, Hash, Structural)]
pub struct UnitId(u32);

impl View for UnitId {
    type V = nat;

    closed spec fn view(&self) -> nat {
        self.0 as nat
    }
}

impl Default for UnitId {
    fn default() -> (r: UnitId)
        ensures
            r@ == 0,
    {
        UnitId(0)
    }
}

impl UnitId {
    pub fn new(value: u32) -> (r: UnitId)
        ensures
            r@ == value as nat,
    {
        UnitId(value)
    }

    pub fn value(&self) -> (r: u32)
        ensures
            r as nat == self@,
    {
        self.0
    }

    /// The handle after this one.
    pub fn next(&self) -> (r: UnitId)
        requires
            self@ < u32::MAX,
        ensures
            r@ == self@ + 1,
    {
        UnitId(self.0 + 1)
    }

    /// Handles are bounded by the width of their value.
    pub proof fn lemma_view_bounds(self)
        ensures
            self@ <= u32::MAX,
    {
    }

    /// Two handles are equal exactly when their values are.
    pub proof fn lemma_view_eq(self, other: UnitId)
        ensures
            (self == other) <==> (self@ == other@),
    {
    }
}

/// The registry that owns every unit of a game.
///
/// The unit with handle `k` is the `k`-th one made: handles run from 1 up to
/// the last one given out, with no gaps, and are never given out twice.
#[derive(Debug)]
pub struct Units {
    units: Vec<Unit>,
    last_id: UnitId,
}

impl View for Units {
    type V = Seq<Unit>;

    /// The units in the order they were made.
    closed spec fn view(&self) -> Seq<Unit> {
        self.units@
    }
}

impl Units {
    /// The registry holds exactly one unit for each handle given out.
    pub closed spec fn wf(self) -> bool {
        self.units@.len() == self.last_id@
    }

    /// The last handle given out; zero while the registry is empty.
    pub open spec fn last_issued(self) -> nat {
        self@.len()
    }

    /// Whether `id` was given out by this registry.
    pub open spec fn issued(self, id: UnitId) -> bool {
        1 <= id@ <= self@.len()
    }

    /// The unit registered under `id`.
    pub open spec fn unit_of(self, id: UnitId) -> Unit
        recommends
            self.issued(id),
    {
        self@[id@ - 1]
    }

    pub fn new() -> (r: Units)
        ensures
            r.wf(),
            r@.len() == 0,
    {
        Units { units: Vec::new(), last_id: UnitId::default() }
    }

    /// Read-only view of every registered unit.
    pub fn iter(&self) -> (r: &[Unit])
        ensures
            r@ == self@,
    {
        self.units.as_slice()
    }

    pub fn len(&self) -> (r: usize)
        ensures
            r == self@.len(),
    {
        self.units.len()
    }

    /// Registers `unit` under a fresh handle, greater than every handle given out before.
    pub fn make_unit(&mut self, unit: Unit) -> (id: UnitId)
        requires
            old(self).wf(),
            old(self)@.len() < u32::MAX,
        ensures
            final(self).wf(),
            final(self)@ == old(self)@.push(unit),
            id@ == old(self).last_issued() + 1,
            !old(self).issued(id),
            final(self).issued(id),
            final(self).unit_of(id) == unit,
            forall|k: UnitId| old(self).issued(k) ==> k@ < id@,
    {
        let next_id = self.last_id.next();
        self.units.push(unit);
        self.last_id = next_id;
        next_id
    }

    /// The unit under `id`, or `None` where this registry never gave `id` out.
    pub fn get_unit_mut(&mut self, id: UnitId) -> (r: Option<&mut Unit>)
        requires
            old(self).wf(),
        ensures
            final(self).wf(),
            r is Some <==> old(self).issued(id),
            r is None ==> final(self)@ == old(self)@,
            r is Some ==> {
                &&& *r->Some_0 == old(self).unit_of(id)
                &&& final(self)@ == old(self)@.update(id@ - 1, *final(r->Some_0))
            },
    {
        if id.0 >= 1 && (id.0 as usize) <= self.units.len() {
            let i = (id.0 - 1) as usize;
            let (_, rest) = self.units.as_mut_slice().split_at_mut(i);
            rest.first_mut()
        } else {
            None
        }
    }

    /// The units under two different handles at once. Fails, changing nothing,
    /// where the handles are equal or one of them was never given out.
    pub fn get_two_mut(&mut self, a: UnitId, b: UnitId) -> (r: Result<(&mut Unit, &mut Unit), IndexError>)
        requires
            old(self).wf(),
        ensures
            final(self).wf(),
            r is Ok <==> (a != b && old(self).issued(a) && old(self).issued(b)),
            r is Err ==> final(self)@ == old(self)@,
            r is Ok ==> {
                let (ua, ub) = r->Ok_0;
                &&& *ua == old(self).unit_of(a)
                &&& *ub == old(self).unit_of(b)
                &&& final(self)@ == old(self)@.update(a@ - 1, *final(ua)).update(b@ - 1, *final(ub))
            },
    {
        if a.0 == 0 || b.0 == 0 {
            return Err(IndexError);
        }
        get_two(&mut self.units, (a.0 - 1) as usize, (b.0 - 1) as usize)
    }
}

} // verus!
