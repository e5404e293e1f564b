use vstd::arithmetic::div_mod::{
    lemma_fundamental_div_mod, lemma_mod_bound, lemma_mod_multiples_vanish, lemma_small_mod,
};
use vstd::prelude::*;

verus! {

/// Number of distinct values of a 16-bit integer.
pub open spec fn modulus16() -> int {
    0x1_0000
}

/// The value of `v` as a wrapping signed 16-bit integer: the representative
/// of `v` modulo 2^16 in `[-2^15, 2^15)`.
pub open spec fn wrap_i16(v: int) -> int {
    let m = v % modulus16();
    if m > 0x7fff {
        m - modulus16()
    } else {
        m
    }
}

/// How many multiples of 2^16 `wrap_i16` takes away from `v`.
pub open spec fn wrap_quot(v: int) -> int {
    if v % modulus16() > 0x7fff {
        v / modulus16() + 1
    } else {
        v / modulus16()
    }
}

pub proof fn lemma_wrap_decompose(v: int)
    ensures
        wrap_i16(v) == v - modulus16() * wrap_quot(v),
        -0x8000 <= wrap_i16(v) <= 0x7fff,
{
    lemma_fundamental_div_mod(v, modulus16());
    lemma_mod_bound(v, modulus16());
}

pub proof fn lemma_wrap_shift(v: int, q: int)
    ensures
        wrap_i16(v + modulus16() * q) == wrap_i16(v),
{
    lemma_mod_multiples_vanish(q, v, modulus16());
    assert(modulus16() * q + v == v + modulus16() * q);
}

pub proof fn lemma_wrap_small(v: int)
    requires
        -0x8000 <= v <= 0x7fff,
    ensures
        wrap_i16(v) == v,
{
    if v >= 0 {
        lemma_small_mod(v as nat, modulus16() as nat);
    } else {
        lemma_small_mod((v + modulus16()) as nat, modulus16() as nat);
        lemma_wrap_shift(v + modulus16(), -1);
        assert(v + modulus16() + modulus16() * -1 == v);
    }
}

/// `wrap_i16` of a sum that is at most one wrap away from the 16-bit range.
pub proof fn lemma_wrap_near(s: int)
    requires
        -0x1_0000 <= s <= 0xffff,
    ensures
        wrap_i16(s) == if s > 0x7fff {
            s - modulus16()
        } else if s < -0x8000 {
            s + modulus16()
        } else {
            s
        },
{
    if s > 0x7fff {
        lemma_wrap_small(s - modulus16());
        lemma_wrap_shift(s - modulus16(), 1);
    } else if s < -0x8000 {
        lemma_wrap_small(s + modulus16());
        lemma_wrap_shift(s + modulus16(), -1);
    } else {
        lemma_wrap_small(s);
    }
}

/// Adding `b` and then taking `b` away again gives back `a`, in wrapping arithmetic.
pub proof fn lemma_wrap_add_sub(a: int, b: int)
    requires
        -0x8000 <= a <= 0x7fff,
    ensures
        wrap_i16(wrap_i16(a + b) - b) == a,
{
    let q = wrap_quot(a + b);
    lemma_wrap_decompose(a + b);
    assert(wrap_i16(a + b) - b == a + modulus16() * -q);
    lemma_wrap_shift(a, -q);
    lemma_wrap_small(a);
}

/// Wrapping multiplication distributes over wrapping addition.
pub proof fn lemma_wrap_distrib(a: int, b: int, k: int)
    ensures
        wrap_i16(wrap_i16(a + b) * k) == wrap_i16(wrap_i16(a * k) + wrap_i16(b * k)),
{
    let m = modulus16();
    let q = wrap_quot(a + b);
    let qa = wrap_quot(a * k);
    let qb = wrap_quot(b * k);
    lemma_wrap_decompose(a + b);
    lemma_wrap_decompose(a * k);
    lemma_wrap_decompose(b * k);
    assert((a + b - m * q) * k == (a * k + b * k) + m * (-(q * k))) by (nonlinear_arith);
    lemma_wrap_shift(a * k + b * k, -(q * k));
    assert((a * k - m * qa) + (b * k - m * qb) == (a * k + b * k) + m * (-(qa + qb))) by (nonlinear_arith);
    lemma_wrap_shift(a * k + b * k, -(qa + qb));
}

/// Component-wise wrapping sum of two coordinate pairs.
pub open spec fn add_view(a: (int, int), b: (int, int)) -> (int, int) {
    (wrap_i16(a.0 + b.0), wrap_i16(a.1 + b.1))
}

/// Component-wise wrapping difference of two coordinate pairs.
pub open spec fn sub_view(a: (int, int), b: (int, int)) -> (int, int) {
    (wrap_i16(a.0 - b.0), wrap_i16(a.1 - b.1))
}

/// Wrapping scalar multiple of a coordinate pair.
pub open spec fn scale_view(a: (int, int), k: int) -> (int, int) {
    (wrap_i16(a.0 * k), wrap_i16(a.1 * k))
}

/// A grid coordinate with wrapping 16-bit component arithmetic.
#[derive(Clone, Copy, Debug, PartialEq, Eq, Hash, Structural)]
pub struct Tile {
    x: i16,
    y: i16,
}

impl View for Tile {
    type V = (int, int);

    closed spec fn view(&self) -> (int, int) {
        (self.x as int, self.y as int)
    }
}

impl Tile {
    pub fn new(x: i16, y: i16) -> (r: Tile)
        ensures
            r@ == (x as int, y as int),
    {
        Tile { x, y }
    }

    pub fn x(&self) -> (r: i32)
        ensures
            r as int == self@.0,
    {
        self.x as i32
    }

    pub fn y(&self) -> (r: i32)
        ensures
            r as int == self@.1,
    {
        self.y as i32
    }

    /// Component-wise wrapping sum.
    pub fn add(self, rhs: Tile) -> (r: Tile)
        ensures
            r@ == add_view(self@, rhs@),
    {
        proof {
            lemma_wrap_near(self.x + rhs.x);
            lemma_wrap_near(self.y + rhs.y);
        }
        Tile { x: self.x.wrapping_add(rhs.x), y: self.y.wrapping_add(rhs.y) }
    }

    /// Component-wise wrapping difference.
    pub fn sub(self, rhs: Tile) -> (r: Tile)
        ensures
            r@ == sub_view(self@, rhs@),
    {
        proof {
            lemma_wrap_near(self.x - rhs.x);
            lemma_wrap_near(self.y - rhs.y);
        }
        Tile { x: self.x.wrapping_sub(rhs.x), y: self.y.wrapping_sub(rhs.y) }
    }

    /// Wrapping multiplication of both coordinates by `k`.
    pub fn mul(self, k: i16) -> (r: Tile)
        ensures
            r@ == scale_view(self@, k as int),
    {
        proof {
            lemma_mod_bound(self.x * k, modulus16());
            lemma_mod_bound(self.y * k, modulus16());
        }
        Tile { x: self.x.wrapping_mul(k), y: self.y.wrapping_mul(k) }
    }

    pub fn add_assign(&mut self, rhs: Tile)
        ensures
            final(self)@ == add_view(old(self)@, rhs@),
    {
        *self = self.add(rhs);
    }

    pub fn sub_assign(&mut self, rhs: Tile)
        ensures
            final(self)@ == sub_view(old(self)@, rhs@),
    {
        *self = self.sub(rhs);
    }

    pub fn mul_assign(&mut self, k: i16)
        ensures
            final(self)@ == scale_view(old(self)@, k as int),
    {
        *self = self.mul(k);
    }

    /// Applying an offset and then removing it gives back the tile you started from.
    pub proof fn lemma_add_sub_round_trip(a: Tile, b: Tile)
        ensures
            sub_view(add_view(a@, b@), b@) == a@,
    {
        lemma_wrap_add_sub(a.x as int, b.x as int);
        lemma_wrap_add_sub(a.y as int, b.y as int);
    }

    /// Scalar multiplication distributes over addition: `(a + b) * k == a * k + b * k`.
    pub proof fn lemma_mul_distributes(a: Tile, b: Tile, k: i16)
        ensures
            scale_view(add_view(a@, b@), k as int) == add_view(
                scale_view(a@, k as int),
                scale_view(b@, k as int),
            ),
    {
        lemma_wrap_distrib(a.x as int, b.x as int, k as int);
        lemma_wrap_distrib(a.y as int, b.y as int, k as int);
    }

    /// Both coordinates of a tile are 16-bit values.
    pub proof fn lemma_view_bounds(self)
        ensures
            -0x8000 <= self@.0 <= 0x7fff,
            -0x8000 <= self@.1 <= 0x7fff,
    {
    }

    /// Two tiles are equal exactly when their coordinates are.
    pub proof fn lemma_view_eq(self, other: Tile)
        ensures
            (self == other) <==> (self@ == other@),
    {
    }
}

} // verus!
