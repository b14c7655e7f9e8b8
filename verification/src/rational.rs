//! Exact rational magnitudes.
//!
//! Every scalar the quantity engine touches — magnitudes and unit
//! conversion factors — is a ratio of two `i128` values with a positive
//! denominator.  Operations reduce their result by the greatest common
//! divisor, and every executable function pins its result to a spec-level
//! pair function, so callers reason about exact integer cross products.

use vstd::arithmetic::div_mod::lemma_fundamental_div_mod;
use vstd::math::abs;
use vstd::prelude::*;

verus! {

/// Largest magnitude a stored numerator or denominator may take (2^62).
/// Products of two in-range magnitudes then stay well inside `i128`.
pub const MAG_LIMIT: i128 = 4611686018427387904;

/// Euclid's greatest common divisor on naturals; `gcd_nat(a, 0) == a`.
pub open spec fn gcd_nat(a: nat, b: nat) -> nat
    decreases b,
{
    if b == 0 {
        a
    } else {
        gcd_nat(b, a % b)
    }
}

/// The gcd of two naturals, at least one positive, is positive.
pub proof fn lemma_gcd_pos(a: nat, b: nat)
    requires
        a > 0 || b > 0,
    ensures
        gcd_nat(a, b) > 0,
    decreases b,
{
    if b != 0 {
        lemma_gcd_pos(b, a % b);
    }
}

/// The gcd divides both of its arguments.
pub proof fn lemma_gcd_divides(a: nat, b: nat)
    requires
        a > 0 || b > 0,
    ensures
        a % gcd_nat(a, b) == 0,
        b % gcd_nat(a, b) == 0,
    decreases b,
{
    let g = gcd_nat(a, b);
    lemma_gcd_pos(a, b);
    if b == 0 {
        assert(a % a == 0) by {
            lemma_fundamental_div_mod(a as int, a as int);
            assert(a == a * 1) by (nonlinear_arith);
            assert(a / a == 1) by {
                lemma_div_of_multiple(1, a as int);
            }
        }
    } else {
        lemma_gcd_divides(b, a % b);
        let q = (a as int) / (b as int);
        lemma_fundamental_div_mod(a as int, b as int);
        let kb = (b as int) / (g as int);
        let kr = ((a % b) as int) / (g as int);
        lemma_fundamental_div_mod(b as int, g as int);
        lemma_fundamental_div_mod((a % b) as int, g as int);
        assert(a == (q * kb + kr) * g) by (nonlinear_arith)
            requires
                a == b * q + (a % b),
                b == g * kb,
                (a % b) as int == g * kr,
        ;
        lemma_mod_of_multiple(q * kb + kr, g as int);
    }
}

/// A multiple of a positive `g` leaves remainder zero, and its quotient
/// by `g` recovers the other factor.
proof fn lemma_mod_of_multiple(k: int, g: int)
    requires
        g > 0,
    ensures
        (k * g) % g == 0,
        (k * g) / g == k,
{
    lemma_fundamental_div_mod(k * g, g);
    let q = (k * g) / g;
    let r = (k * g) % g;
    assert(0 <= r < g);
    assert((k - q) * g == r) by (nonlinear_arith)
        requires
            k * g == g * q + r,
    ;
    assert(k == q && r == 0) by (nonlinear_arith)
        requires
            (k - q) * g == r,
            0 <= r < g,
    ;
}

/// Exact division by a positive multiple yields the cofactor.
proof fn lemma_div_of_multiple(k: int, g: int)
    requires
        g > 0,
    ensures
        (k * g) / g == k,
{
    lemma_mod_of_multiple(k, g);
}

/// Quotient of `n` by a positive `g`, dividing magnitudes and keeping
/// the sign of `n`; agrees with exact division whenever `g` divides `n`.
pub open spec fn exact_div_signed(n: int, g: int) -> int {
    if n >= 0 {
        n / g
    } else {
        -((-n) / g)
    }
}

/// `(n, d)` with the gcd of the magnitudes divided out; the second
/// component stays positive when `d` is.
pub open spec fn reduce_pair(n: int, d: int) -> (int, int) {
    if d <= 0 {
        (n, d)
    } else {
        let g = gcd_nat(abs(n), d as nat) as int;
        (exact_div_signed(n, g), d / g)
    }
}

/// Sign-normalise, then reduce: the canonical stored form of `n / d`.
pub open spec fn rat_canon(n: int, d: int) -> (int, int) {
    if d < 0 {
        reduce_pair(-n, -d)
    } else {
        reduce_pair(n, d)
    }
}

/// Both components of a reduced pair fit the storage bound.
pub open spec fn pair_fits(p: (int, int)) -> bool {
    &&& -MAG_LIMIT <= p.0 <= MAG_LIMIT
    &&& 0 < p.1 <= MAG_LIMIT
}

/// Exact product of two pairs, reduced.
pub open spec fn pmul(p: (int, int), q: (int, int)) -> (int, int) {
    reduce_pair(p.0 * q.0, p.1 * q.1)
}

/// Exact sum of two pairs over the common denominator, reduced.
pub open spec fn padd(p: (int, int), q: (int, int)) -> (int, int) {
    reduce_pair(p.0 * q.1 + q.0 * p.1, p.1 * q.1)
}

/// The pair with the numerator's sign flipped.
pub open spec fn pneg(p: (int, int)) -> (int, int) {
    (-p.0, p.1)
}

/// The reciprocal pair, sign moved to the numerator; meaningful only
/// for `p.0 != 0`.
pub open spec fn precip(p: (int, int)) -> (int, int) {
    if p.0 >= 0 {
        (p.1, p.0)
    } else {
        (-p.1, -p.0)
    }
}

/// The two pairs name the same rational: cross products agree.
pub open spec fn rat_equiv(p: (int, int), q: (int, int)) -> bool {
    p.0 * q.1 == q.0 * p.1
}

/// Core facts about reduction over a positive denominator: the result
/// keeps the value (cross products agree), keeps the numerator's sign,
/// and never grows either component.
pub proof fn lemma_reduce_pair(n: int, d: int)
    requires
        d > 0,
    ensures
        reduce_pair(n, d).1 > 0,
        reduce_pair(n, d).0 * d == n * reduce_pair(n, d).1,
        abs(reduce_pair(n, d).0) <= abs(n),
        reduce_pair(n, d).1 <= d,
        n > 0 ==> reduce_pair(n, d).0 > 0,
        n == 0 ==> reduce_pair(n, d) == (0int, 1int),
        n < 0 ==> reduce_pair(n, d).0 < 0,
{
    let m = abs(n);
    lemma_gcd_pos(m, d as nat);
    lemma_gcd_divides(m, d as nat);
    let g = gcd_nat(m, d as nat) as int;
    lemma_fundamental_div_mod(m as int, g);
    lemma_fundamental_div_mod(d, g);
    let a = (m as int) / g;
    let b = d / g;
    assert(m == g * a && d == g * b);
    assert(b > 0) by (nonlinear_arith)
        requires
            d == g * b,
            d > 0,
            g > 0,
            b >= 0,
    ;
    assert(a <= m) by (nonlinear_arith)
        requires
            m == g * a,
            g >= 1,
            a >= 0,
    ;
    assert(b <= d) by (nonlinear_arith)
        requires
            d == g * b,
            g >= 1,
            b > 0,
    ;
    if n >= 0 {
        assert(a * d == n * b) by (nonlinear_arith)
            requires
                n == g * a,
                d == g * b,
        ;
        assert(n > 0 ==> a > 0) by (nonlinear_arith)
            requires
                n == g * a,
                g > 0,
                a >= 0,
        ;
        if n == 0 {
            assert(gcd_nat(0, d as nat) == gcd_nat(d as nat, 0));
            assert(g == d);
            lemma_div_of_multiple(1, g);
            assert(d == 1 * g);
            assert(b == 1);
            assert(a == 0) by (nonlinear_arith)
                requires
                    0 == g * a,
                    g > 0,
                    a >= 0,
            ;
        }
    } else {
        assert((-a) * d == n * b) by (nonlinear_arith)
            requires
                -n == g * a,
                d == g * b,
        ;
        assert(a > 0) by (nonlinear_arith)
            requires
                -n == g * a,
                n < 0,
                g > 0,
                a >= 0,
        ;
    }
}

/// The `k`-th power of a pair, built by repeated reduced multiplication
/// starting from one.
pub open spec fn ppow(f: (int, int), k: nat) -> (int, int)
    decreases k,
{
    if k == 0 {
        (1int, 1int)
    } else {
        pmul(ppow(f, (k - 1) as nat), f)
    }
}

/// Every power of `f` up to the `k`-th stays inside the storage bound.
pub open spec fn ppow_all_fits(f: (int, int), k: nat) -> bool {
    forall|j: nat| 1 <= j <= k ==> pair_fits(#[trigger] ppow(f, j))
}

/// `v` rescaled by the `n`-th power of the factor `f`: multiplied for
/// positive `n`, divided for negative `n`, untouched for zero.
pub open spec fn spec_scaled(v: (int, int), f: (int, int), n: int) -> (int, int) {
    if n == 0 {
        v
    } else if n > 0 {
        pmul(v, ppow(f, n as nat))
    } else {
        pmul(v, precip(ppow(f, (-n) as nat)))
    }
}

/// Every step of the rescaling by `f` to the `n`-th power fits storage.
pub open spec fn scale_fits(v: (int, int), f: (int, int), n: int) -> bool {
    if n == 0 {
        true
    } else if n > 0 {
        ppow_all_fits(f, n as nat) && pair_fits(pmul(v, ppow(f, n as nat)))
    } else {
        ppow_all_fits(f, (-n) as nat) && pair_fits(pmul(v, precip(ppow(f, (-n) as nat))))
    }
}

/// Reduced products of pairs with positive components stay positive.
pub proof fn lemma_pmul_pos(p: (int, int), q: (int, int))
    requires
        p.0 >= 1,
        p.1 >= 1,
        q.0 >= 1,
        q.1 >= 1,
    ensures
        pmul(p, q).0 >= 1,
        pmul(p, q).1 >= 1,
{
    assert(p.0 * q.0 >= 1 && p.1 * q.1 >= 1) by (nonlinear_arith)
        requires
            p.0 >= 1,
            p.1 >= 1,
            q.0 >= 1,
            q.1 >= 1,
    ;
    lemma_reduce_pair(p.0 * q.0, p.1 * q.1);
}

/// Powers of a pair with positive components stay positive.
pub proof fn lemma_ppow_pos(f: (int, int), k: nat)
    requires
        f.0 >= 1,
        f.1 >= 1,
    ensures
        ppow(f, k).0 >= 1,
        ppow(f, k).1 >= 1,
    decreases k,
{
    if k > 0 {
        lemma_ppow_pos(f, (k - 1) as nat);
        lemma_pmul_pos(ppow(f, (k - 1) as nat), f);
    }
}

/// An exact rational number: `num / den` with `den` positive.
#[derive(Clone, Copy, Debug, PartialEq, Eq, Structural)]
pub struct Rational {
    pub num: i128,
    pub den: i128,
}

impl View for Rational {
    type V = (int, int);

    open spec fn view(&self) -> (int, int) {
        (self.num as int, self.den as int)
    }
}

impl Rational {
    /// Well-formed storage: positive denominator, both components bounded.
    pub open spec fn wf(&self) -> bool {
        &&& 0 < self.den <= MAG_LIMIT
        &&& -MAG_LIMIT <= self.num <= MAG_LIMIT
    }

    /// The rational is exactly zero.
    pub open spec fn is_zero(&self) -> bool {
        self.num == 0
    }

    /// The rational is exactly one.
    pub open spec fn is_one(&self) -> bool {
        self.num == self.den
    }

    /// Builds `num / den` in canonical form.  The denominator's sign is
    /// absorbed into the numerator and the gcd is divided out.
    pub fn new(num: i128, den: i128) -> (r: Rational)
        requires
            den != 0,
            -MAG_LIMIT <= num <= MAG_LIMIT,
            -MAG_LIMIT <= den <= MAG_LIMIT,
        ensures
            r.wf(),
            r@ == rat_canon(num as int, den as int),
    {
        proof {
            if den < 0 {
                lemma_reduce_pair(-num as int, -den as int);
            } else {
                lemma_reduce_pair(num as int, den as int);
            }
        }
        if den < 0 {
            make_reduced(-num, -den)
        } else {
            make_reduced(num, den)
        }
    }

    /// The integer `n` as a rational with denominator one.
    pub fn from_int(n: i128) -> (r: Rational)
        requires
            -MAG_LIMIT <= n <= MAG_LIMIT,
        ensures
            r.wf(),
            r@ == (n as int, 1int),
    {
        Rational { num: n, den: 1 }
    }

    /// The rational one.
    pub fn one() -> (r: Rational)
        ensures
            r.wf(),
            r@ == (1int, 1int),
    {
        Rational { num: 1, den: 1 }
    }

    /// The rational zero.
    pub fn zero() -> (r: Rational)
        ensures
            r.wf(),
            r@ == (0int, 1int),
    {
        Rational { num: 0, den: 1 }
    }

    /// Exact product, reduced.
    pub fn mul(&self, other: &Rational) -> (r: Rational)
        requires
            self.wf(),
            other.wf(),
            pair_fits(pmul(self@, other@)),
        ensures
            r.wf(),
            r@ == pmul(self@, other@),
    {
        proof {
            lemma_mag_product_bound(self.num as int, other.num as int);
            lemma_mag_product_bound(self.den as int, other.den as int);
        }
        let n: i128 = self.num * other.num;
        let d: i128 = self.den * other.den;
        assert(d > 0) by (nonlinear_arith)
            requires
                self.den > 0,
                other.den > 0,
                d == self.den * other.den,
        ;
        make_reduced(n, d)
    }

    /// Exact sum, reduced.
    pub fn add_rat(&self, other: &Rational) -> (r: Rational)
        requires
            self.wf(),
            other.wf(),
            pair_fits(padd(self@, other@)),
        ensures
            r.wf(),
            r@ == padd(self@, other@),
    {
        proof {
            lemma_mag_product_bound(self.num as int, other.den as int);
            lemma_mag_product_bound(other.num as int, self.den as int);
            lemma_mag_product_bound(self.den as int, other.den as int);
        }
        let n: i128 = self.num * other.den + other.num * self.den;
        let d: i128 = self.den * other.den;
        assert(d > 0) by (nonlinear_arith)
            requires
                self.den > 0,
                other.den > 0,
                d == self.den * other.den,
        ;
        make_reduced(n, d)
    }

    /// The same magnitude with the opposite sign.
    pub fn neg(&self) -> (r: Rational)
        requires
            self.wf(),
        ensures
            r.wf(),
            r@ == pneg(self@),
    {
        Rational { num: -self.num, den: self.den }
    }

    /// The multiplicative inverse; the sign moves to the numerator.
    pub fn recip(&self) -> (r: Rational)
        requires
            self.wf(),
            self.num != 0,
        ensures
            r.wf(),
            r@ == precip(self@),
    {
        if self.num > 0 {
            Rational { num: self.den, den: self.num }
        } else {
            Rational { num: -self.den, den: -self.num }
        }
    }

    /// True exactly when the two rationals name the same number.
    pub fn equiv(&self, other: &Rational) -> (r: bool)
        requires
            self.wf(),
            other.wf(),
        ensures
            r == rat_equiv(self@, other@),
    {
        proof {
            lemma_mag_product_bound(self.num as int, other.den as int);
            lemma_mag_product_bound(other.num as int, self.den as int);
        }
        self.num * other.den == other.num * self.den
    }
}

/// The `k`-th power of a positive factor, by repeated multiplication.
pub fn pow_of(f: &Rational, k: u32) -> (r: Rational)
    requires
        f.wf(),
        f.num >= 1,
        f.den >= 1,
        ppow_all_fits(f@, k as nat),
    ensures
        r.wf(),
        r@ == ppow(f@, k as nat),
        r.num >= 1,
        r.den >= 1,
{
    let mut acc = Rational::one();
    let mut i: u32 = 0;
    while i < k
        invariant
            i <= k,
            acc.wf(),
            acc.num >= 1,
            acc.den >= 1,
            acc@ == ppow(f@, i as nat),
            f.wf(),
            f.num >= 1,
            f.den >= 1,
            ppow_all_fits(f@, k as nat),
        decreases k - i,
    {
        proof {
            assert((i + 1) as nat - 1 == i as nat);
            assert(ppow(f@, (i + 1) as nat) == pmul(ppow(f@, i as nat), f@));
            assert(pair_fits(ppow(f@, (i + 1) as nat)));
            lemma_pmul_pos(acc@, f@);
        }
        acc = acc.mul(f);
        i = i + 1;
    }
    acc
}

/// Rescales `v` by the `n`-th power of the factor `f`: multiplying for
/// positive `n`, dividing for negative `n`.
pub fn apply_scale(v: &Rational, f: &Rational, n: i32) -> (r: Rational)
    requires
        v.wf(),
        f.wf(),
        f.num >= 1,
        f.den >= 1,
        scale_fits(v@, f@, n as int),
    ensures
        r.wf(),
        r@ == spec_scaled(v@, f@, n as int),
{
    if n == 0 {
        *v
    } else {
        let k: u32 = if n < 0 {
            (-(n as i64)) as u32
        } else {
            n as u32
        };
        let p = pow_of(f, k);
        if n > 0 {
            v.mul(&p)
        } else {
            let pr = p.recip();
            v.mul(&pr)
        }
    }
}

/// Products of two in-range components stay inside `i128`.
proof fn lemma_mag_product_bound(x: int, y: int)
    requires
        -MAG_LIMIT <= x <= MAG_LIMIT,
        -MAG_LIMIT <= y <= MAG_LIMIT,
    ensures
        -(MAG_LIMIT * MAG_LIMIT) <= x * y <= MAG_LIMIT * MAG_LIMIT,
{
    assert(-(MAG_LIMIT * MAG_LIMIT) <= x * y <= MAG_LIMIT * MAG_LIMIT)
        by (nonlinear_arith)
        requires
            -MAG_LIMIT <= x <= MAG_LIMIT,
            -MAG_LIMIT <= y <= MAG_LIMIT,
    ;
}

/// Euclid's algorithm on non-negative `i128` values.
fn gcd_i128(a0: i128, b0: i128) -> (g: i128)
    requires
        0 <= a0,
        0 <= b0,
        a0 > 0 || b0 > 0,
    ensures
        g == gcd_nat(a0 as nat, b0 as nat),
        g >= 1,
{
    let mut a: i128 = a0;
    let mut b: i128 = b0;
    while b != 0
        invariant
            0 <= a,
            0 <= b,
            a > 0 || b > 0,
            gcd_nat(a as nat, b as nat) == gcd_nat(a0 as nat, b0 as nat),
        decreases b,
    {
        let r: i128 = a % b;
        a = b;
        b = r;
    }
    proof {
        lemma_gcd_pos(a0 as nat, b0 as nat);
    }
    a
}

/// Divides the gcd of the magnitudes out of `n / d`.  The bound on the
/// inputs is what two in-range factors (or a sum of two such products)
/// can reach, far inside `i128`.
fn make_reduced(n: i128, d: i128) -> (r: Rational)
    requires
        0 < d <= 2 * (MAG_LIMIT * MAG_LIMIT),
        -(2 * (MAG_LIMIT * MAG_LIMIT)) <= n <= 2 * (MAG_LIMIT * MAG_LIMIT),
        pair_fits(reduce_pair(n as int, d as int)),
    ensures
        r.wf(),
        r@ == reduce_pair(n as int, d as int),
{
    let mag: i128 = if n < 0 {
        -n
    } else {
        n
    };
    let g: i128 = gcd_i128(mag, d);
    proof {
        lemma_gcd_divides(mag as nat, d as nat);
    }
    let rn_mag: i128 = mag / g;
    let rd: i128 = d / g;
    let rn: i128 = if n < 0 {
        -rn_mag
    } else {
        rn_mag
    };
    Rational { num: rn, den: rd }
}

} // verus!
