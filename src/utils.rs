use vstd::prelude::*;

verus! {

/// Two views of one vector were asked for with indices that are equal or out of range.
#[derive(Clone, Copy, Debug, PartialEq, Eq, Structural)]
pub struct IndexError;

impl IndexError {
    /// A short description of the error.
    pub fn description(&self) -> (r: &'static str)
        ensures
            r@ == "invalid indicies were used"@,
    {
        "invalid indicies were used"
    }
}

/// Whether `i` and `j` name two different elements of a sequence of length `len`.
pub open spec fn valid_pair(len: int, i: int, j: int) -> bool {
    i != j && 0 <= i < len && 0 <= j < len
}

/// Mutable views of two different elements of `data` at once.
pub fn get_two<T>(data: &mut Vec<T>, i: usize, j: usize) -> (r: Result<(&mut T, &mut T), IndexError>)
    ensures
        r is Ok <==> valid_pair(old(data)@.len() as int, i as int, j as int),
        r is Err ==> final(data)@ == old(data)@,
        r is Ok ==> {
            let (a, b) = r->Ok_0;
            &&& *a == old(data)@[i as int]
            &&& *b == old(data)@[j as int]
            &&& final(data)@ == old(data)@.update(i as int, *final(a)).update(j as int, *final(b))
        },
{
    if i == j || i >= data.len() || j >= data.len() {
        return Err(IndexError);
    }
    let lo = if i < j { i } else { j };
    let hi = if i < j { j } else { i };
    let (left, right) = data.as_mut_slice().split_at_mut(hi);
    let (_, from_lo) = left.split_at_mut(lo);
    let first = from_lo.first_mut().unwrap();
    let second = right.first_mut().unwrap();
    if i < j {
        Ok((first, second))
    } else {
        Ok((second, first))
    }
}

/// Mutable views of every element of `data`, in order.
pub fn get_all<T>(data: &mut Vec<T>) -> (r: Vec<&mut T>)
    ensures
        r@.len() == old(data)@.len(),
        forall|i: int| 0 <= i < r@.len() ==> *#[trigger] r@[i] == old(data)@[i],
        final(data)@ == Seq::new(r@.len(), |i: int| *final(r@[i])),
{
    let ghost orig = data@;
    let mut return_vec: Vec<&mut T> = Vec::new();
    let mut rest: &mut [T] = data.as_mut_slice();
    let ghost whole = rest;
    while rest.len() > 0
        invariant
            return_vec@.len() + rest@.len() == orig.len(),
            forall|i: int| 0 <= i < return_vec@.len() ==> *#[trigger] return_vec@[i] == orig[i],
            rest@ == orig.subrange(return_vec@.len() as int, orig.len() as int),
            final(whole)@ == Seq::new(return_vec@.len(), |i: int| *final(return_vec@[i])) + final(rest)@,
        decreases rest@.len(),
    {
        let (head, tail) = rest.split_at_mut(1);
        let e = head.first_mut().unwrap();
        return_vec.push(e);
        rest = tail;
    }
    return_vec
}

} // verus!
