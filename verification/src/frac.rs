//! Exact rational arithmetic.
//!
//! The verified geometry works on exact rational coordinates.  A [`Frac`]
//! holds a numerator and a positive denominator; the executable operations
//! are overflow-checked and return `None` exactly when a machine bound is
//! exceeded, so every `Some` result is the exact mathematical value.
//!
//! Contracts are stated over [`Rat`], the ghost-level rational: a pair of
//! unbounded integers compared by cross-multiplication.  For every checked
//! operation a `..._defined` predicate says exactly on which operands it
//! succeeds.

use vstd::prelude::*;

verus! {

/// A ghost rational number `n / d`.
pub ghost struct Rat {
    pub n: int,
    pub d: int,
}

/// A ghost rational is well formed when its denominator is positive.
pub open spec fn rat_wf(a: Rat) -> bool {
    a.d > 0
}

/// Equality of ghost rationals, by cross-multiplication.
pub open spec fn rat_eq(a: Rat, b: Rat) -> bool {
    a.n * b.d == b.n * a.d
}

/// The ghost rational of an integer.
pub open spec fn rat_int(n: int) -> Rat {
    Rat { n, d: 1 }
}

/// Sum of two ghost rationals.
pub open spec fn rat_add(a: Rat, b: Rat) -> Rat {
    Rat { n: a.n * b.d + b.n * a.d, d: a.d * b.d }
}

/// Difference of two ghost rationals.
pub open spec fn rat_sub(a: Rat, b: Rat) -> Rat {
    Rat { n: a.n * b.d - b.n * a.d, d: a.d * b.d }
}

/// Product of two ghost rationals.
pub open spec fn rat_mul(a: Rat, b: Rat) -> Rat {
    Rat { n: a.n * b.n, d: a.d * b.d }
}

/// Opposite of a ghost rational.
pub open spec fn rat_neg(a: Rat) -> Rat {
    Rat { n: -a.n, d: a.d }
}

/// Quotient of two ghost rationals (meaningful when `b.n != 0`), with the
/// sign moved into the numerator so the denominator stays positive.
pub open spec fn rat_div(a: Rat, b: Rat) -> Rat {
    if b.n < 0 {
        Rat { n: a.n * -b.d, d: a.d * -b.n }
    } else {
        Rat { n: a.n * b.d, d: a.d * b.n }
    }
}

/// Comparison of ghost rationals (with positive denominators).
pub open spec fn rat_le(a: Rat, b: Rat) -> bool {
    a.n * b.d <= b.n * a.d
}

/// Whether an unbounded integer fits the machine word used by `Frac`.
pub open spec fn in128(x: int) -> bool {
    i128::MIN <= x <= i128::MAX
}

/// The exact sum of `a` and `b` is computable within the machine range.
pub open spec fn add_defined(a: Rat, b: Rat) -> bool {
    &&& in128(a.n * b.d)
    &&& in128(b.n * a.d)
    &&& in128(a.n * b.d + b.n * a.d)
    &&& in128(a.d * b.d)
}

/// The exact difference of `a` and `b` is computable within the machine range.
pub open spec fn sub_defined(a: Rat, b: Rat) -> bool {
    &&& in128(a.n * b.d)
    &&& in128(b.n * a.d)
    &&& in128(a.n * b.d - b.n * a.d)
    &&& in128(a.d * b.d)
}

/// The exact product of `a` and `b` is computable within the machine range.
pub open spec fn mul_defined(a: Rat, b: Rat) -> bool {
    in128(a.n * b.n) && in128(a.d * b.d)
}

/// The exact quotient of `a` by `b` is computable within the machine range.
pub open spec fn div_defined(a: Rat, b: Rat) -> bool {
    &&& b.n != 0
    &&& b.n > i128::MIN
    &&& in128(rat_div(a, b).n)
    &&& in128(rat_div(a, b).d)
}

/// The cross-multiplied comparison of `a` and `b` is computable within the
/// machine range.
pub open spec fn cmp_defined(a: Rat, b: Rat) -> bool {
    in128(a.n * b.d) && in128(b.n * a.d)
}

/// The `e`-th power of a ghost rational.
pub open spec fn rat_pow(a: Rat, e: nat) -> Rat
    decreases e,
{
    if e == 0 {
        rat_int(1)
    } else {
        rat_mul(rat_pow(a, (e - 1) as nat), a)
    }
}

/// The exact computation of `a^e` stays within the machine range.
pub open spec fn pow_defined(a: Rat, e: nat) -> bool
    decreases e,
{
    if e == 0 {
        true
    } else {
        pow_defined(a, (e - 1) as nat) && mul_defined(rat_pow(a, (e - 1) as nat), a)
    }
}

/// An exact rational number with machine numerator and denominator.
#[derive(Clone, Copy, Debug)]
pub struct Frac {
    num: i128,
    den: i128,
}

impl Frac {
    /// The denominator is kept positive.
    pub closed spec fn wf(self) -> bool {
        self.den > 0
    }

    /// The ghost rational this value stands for.
    pub closed spec fn r(self) -> Rat {
        Rat { n: self.num as int, d: self.den as int }
    }

    /// Builds the exact rational `num / den`.
    pub fn new(num: i128, den: i128) -> (r: Option<Frac>)
        ensures
            r is Some <==> den != 0 && den > i128::MIN && num > i128::MIN,
            r matches Some(v) ==> v.wf() && rat_eq(v.r(), (Rat { n: num as int, d: den as int })),
            r matches Some(v) ==> (den > 0 ==> v.r() == (Rat { n: num as int, d: den as int })),
    {
        if den == 0 || den == i128::MIN || num == i128::MIN {
            None
        } else if den < 0 {
            let v = Frac { num: -num, den: -den };
            proof {
                assert((-num as int) * (den as int) == (num as int) * (-den as int))
                    by (nonlinear_arith);
            }
            Some(v)
        } else {
            Some(Frac { num, den })
        }
    }

    /// Builds the exact rational `n / 1`.
    pub fn of_int(n: i128) -> (r: Frac)
        ensures
            r.wf(),
            r.r() == rat_int(n as int),
    {
        Frac { num: n, den: 1 }
    }

    /// The numerator.
    pub fn num(&self) -> (r: i128)
        ensures
            r == self.r().n,
    {
        self.num
    }

    /// The denominator.
    pub fn den(&self) -> (r: i128)
        ensures
            r == self.r().d,
    {
        self.den
    }

    /// Exact sum; `None` exactly when a machine bound is exceeded.
    pub fn add(&self, o: &Frac) -> (r: Option<Frac>)
        requires
            self.wf(),
            o.wf(),
        ensures
            r matches Some(v) ==> v.wf() && v.r() == rat_add(self.r(), o.r()),
            r is Some <==> add_defined(self.r(), o.r()),
    {
        let ad = self.num.checked_mul(o.den);
        let bc = o.num.checked_mul(self.den);
        let dd = self.den.checked_mul(o.den);
        match (ad, bc, dd) {
            (Some(x), Some(y), Some(d)) => match x.checked_add(y) {
                Some(n) => {
                    proof {
                        assert(self.r().d * o.r().d > 0) by (nonlinear_arith)
                            requires
                                self.r().d > 0,
                                o.r().d > 0,
                        ;
                    }
                    Some(Frac { num: n, den: d })
                },
                None => None,
            },
            _ => None,
        }
    }

    /// Exact difference; `None` exactly when a machine bound is exceeded.
    pub fn sub(&self, o: &Frac) -> (r: Option<Frac>)
        requires
            self.wf(),
            o.wf(),
        ensures
            r matches Some(v) ==> v.wf() && v.r() == rat_sub(self.r(), o.r()),
            r is Some <==> sub_defined(self.r(), o.r()),
    {
        let ad = self.num.checked_mul(o.den);
        let bc = o.num.checked_mul(self.den);
        let dd = self.den.checked_mul(o.den);
        match (ad, bc, dd) {
            (Some(x), Some(y), Some(d)) => match x.checked_sub(y) {
                Some(n) => {
                    proof {
                        assert(self.r().d * o.r().d > 0) by (nonlinear_arith)
                            requires
                                self.r().d > 0,
                                o.r().d > 0,
                        ;
                    }
                    Some(Frac { num: n, den: d })
                },
                None => None,
            },
            _ => None,
        }
    }

    /// Exact product; `None` exactly when a machine bound is exceeded.
    pub fn mul(&self, o: &Frac) -> (r: Option<Frac>)
        requires
            self.wf(),
            o.wf(),
        ensures
            r matches Some(v) ==> v.wf() && v.r() == rat_mul(self.r(), o.r()),
            r is Some <==> mul_defined(self.r(), o.r()),
    {
        let nn = self.num.checked_mul(o.num);
        let dd = self.den.checked_mul(o.den);
        match (nn, dd) {
            (Some(n), Some(d)) => {
                proof {
                    assert(self.r().d * o.r().d > 0) by (nonlinear_arith)
                        requires
                            self.r().d > 0,
                            o.r().d > 0,
                    ;
                }
                Some(Frac { num: n, den: d })
            },
            _ => None,
        }
    }

    /// Exact quotient; `None` exactly when the divisor is zero or a machine
    /// bound is exceeded.
    pub fn div(&self, o: &Frac) -> (r: Option<Frac>)
        requires
            self.wf(),
            o.wf(),
        ensures
            r matches Some(v) ==> v.wf() && o.r().n != 0 && v.r() == rat_div(self.r(), o.r())
                && rat_eq(rat_mul(v.r(), o.r()), self.r()),
            r is Some <==> div_defined(self.r(), o.r()),
    {
        if o.num == 0 || o.num == i128::MIN {
            None
        } else {
            let (on, od) = if o.num < 0 {
                (-o.num, -o.den)
            } else {
                (o.num, o.den)
            };
            let nn = self.num.checked_mul(od);
            let dd = self.den.checked_mul(on);
            match (nn, dd) {
                (Some(n), Some(d)) => {
                    let v = Frac { num: n, den: d };
                    proof {
                        assert(self.r().d * (on as int) > 0) by (nonlinear_arith)
                            requires
                                self.r().d > 0,
                                on > 0,
                        ;
                        lemma_div_exact(self.r(), o.r(), v.r());
                    }
                    Some(v)
                },
                _ => None,
            }
        }
    }

    /// Exact opposite.
    pub fn neg(&self) -> (r: Option<Frac>)
        requires
            self.wf(),
        ensures
            r matches Some(v) ==> v.wf() && v.r() == rat_neg(self.r()),
            r is Some <==> self.r().n > i128::MIN,
    {
        if self.num == i128::MIN {
            None
        } else {
            Some(Frac { num: -self.num, den: self.den })
        }
    }

    /// Exact equality test, by cross-multiplication.
    pub fn eq_val(&self, o: &Frac) -> (r: Option<bool>)
        requires
            self.wf(),
            o.wf(),
        ensures
            r matches Some(b) ==> (b <==> rat_eq(self.r(), o.r())),
            r is Some <==> cmp_defined(self.r(), o.r()),
    {
        let ad = self.num.checked_mul(o.den);
        let bc = o.num.checked_mul(self.den);
        match (ad, bc) {
            (Some(x), Some(y)) => Some(x == y),
            _ => None,
        }
    }

    /// Exact order test, by cross-multiplication.
    pub fn le(&self, o: &Frac) -> (r: Option<bool>)
        requires
            self.wf(),
            o.wf(),
        ensures
            r matches Some(b) ==> (b <==> rat_le(self.r(), o.r())),
            r is Some <==> cmp_defined(self.r(), o.r()),
    {
        let ad = self.num.checked_mul(o.den);
        let bc = o.num.checked_mul(self.den);
        match (ad, bc) {
            (Some(x), Some(y)) => Some(x <= y),
            _ => None,
        }
    }

    /// Sign of the value (negative, zero or positive as -1, 0 or 1).
    pub fn signum(&self) -> (r: i8)
        requires
            self.wf(),
        ensures
            r == 1 <==> self.r().n > 0,
            r == 0 <==> self.r().n == 0,
            r == -1 <==> self.r().n < 0,
    {
        if self.num > 0 {
            1
        } else if self.num == 0 {
            0
        } else {
            -1
        }
    }
}

/// Exact power by repeated multiplication; `None` exactly when a machine
/// bound is exceeded.
pub fn pow_frac(a: &Frac, e: u16) -> (r: Option<Frac>)
    requires
        a.wf(),
    ensures
        r matches Some(v) ==> v.wf() && v.r() == rat_pow(a.r(), e as nat),
        r is Some <==> pow_defined(a.r(), e as nat),
{
    let mut acc = Frac::of_int(1);
    let mut i: u16 = 0;
    while i < e
        invariant
            i <= e,
            a.wf(),
            acc.wf(),
            acc.r() == rat_pow(a.r(), i as nat),
            pow_defined(a.r(), i as nat),
        decreases e - i,
    {
        match acc.mul(a) {
            Some(n) => {
                acc = n;
                i = i + 1;
            },
            None => {
                proof {
                    lemma_pow_prefix_undef(a.r(), (i + 1) as nat, e as nat);
                }
                return None;
            },
        }
    }
    Some(acc)
}

/// If `a^j` already leaves the machine range, so does `a^e` for any larger
/// exponent.
proof fn lemma_pow_prefix_undef(a: Rat, j: nat, e: nat)
    requires
        j <= e,
        !pow_defined(a, j),
    ensures
        !pow_defined(a, e),
    decreases e,
{
    if j < e {
        lemma_pow_prefix_undef(a, j, (e - 1) as nat);
    }
}

/// Division is exact: the sign-normalized cross product multiplied back by
/// the divisor gives the dividend again.
proof fn lemma_div_exact(a: Rat, o: Rat, v: Rat) by (nonlinear_arith)
    requires
        rat_wf(a),
        rat_wf(o),
        o.n != 0,
        v.n == if o.n < 0 { a.n * -o.d } else { a.n * o.d },
        v.d == if o.n < 0 { a.d * -o.n } else { a.d * o.n },
    ensures
        rat_eq(rat_mul(v, o), a),
{
}

/// What a well-formed machine rational guarantees of its ghost value.
pub proof fn lemma_frac_bounds(f: Frac)
    requires
        f.wf(),
    ensures
        f.r().d > 0,
        in128(f.r().n),
        in128(f.r().d),
{
}

/// `rat_eq` is transitive through a value whose denominator is not zero.
pub proof fn lemma_rat_eq_trans(a: Rat, b: Rat, c: Rat) by (nonlinear_arith)
    requires
        b.d != 0,
        rat_eq(a, b),
        rat_eq(b, c),
    ensures
        rat_eq(a, c),
{
}

/// The sum of well-formed rationals is well formed.
pub proof fn lemma_add_wf(a: Rat, b: Rat) by (nonlinear_arith)
    requires
        rat_wf(a),
        rat_wf(b),
    ensures
        rat_wf(rat_add(a, b)),
{
}

/// The difference of well-formed rationals is well formed.
pub proof fn lemma_sub_wf(a: Rat, b: Rat) by (nonlinear_arith)
    requires
        rat_wf(a),
        rat_wf(b),
    ensures
        rat_wf(rat_sub(a, b)),
{
}

/// The product of well-formed rationals is well formed.
pub proof fn lemma_mul_wf(a: Rat, b: Rat) by (nonlinear_arith)
    requires
        rat_wf(a),
        rat_wf(b),
    ensures
        rat_wf(rat_mul(a, b)),
{
}

/// The quotient of well-formed rationals by a nonzero divisor is well formed.
pub proof fn lemma_div_wf(a: Rat, b: Rat) by (nonlinear_arith)
    requires
        rat_wf(a),
        rat_wf(b),
        b.n != 0,
    ensures
        rat_wf(rat_div(a, b)),
{
}

} // verus!
