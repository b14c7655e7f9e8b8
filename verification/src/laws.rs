//! The algebraic laws of the quantity engine, proved against the spec
//! functions that the executable operations are pinned to.

use crate::quantity::spec_convert;
use crate::quantity::spec_multiply;
use crate::quantity::spec_reciprocal;
use crate::quantity::EngUnit;
use crate::quantity::QModel;
use crate::rational::exact_div_signed;
use crate::rational::gcd_nat;
use crate::rational::lemma_reduce_pair;
use crate::rational::pmul;
use crate::rational::ppow;
use crate::rational::precip;
use crate::rational::rat_equiv;
use crate::rational::reduce_pair;
use crate::rational::spec_scaled;
use crate::render::display_seq;
use crate::render::latex_seq;
use crate::render::unit_string_seq;
use crate::units::AmountOfSubstanceUnit;
use crate::units::Dimension;
use crate::units::ElectricCurrentUnit;
use crate::units::LengthUnit;
use crate::units::LuminousIntensityUnit;
use crate::units::MassUnit;
use crate::units::TemperatureDeltaUnit;
use crate::units::TimeUnit;
use crate::units::Unit;
use vstd::arithmetic::div_mod::lemma_div_by_self;
use vstd::arithmetic::div_mod::lemma_mod_self_0;
use vstd::arithmetic::power::lemma_pow_distributes;
use vstd::arithmetic::power::lemma_pow_positive;
use vstd::arithmetic::power::pow;
use vstd::prelude::*;

verus! {

/// Exponent additivity: the product's exponent in every dimension is
/// the sum of the operands' exponents there.
pub proof fn lemma_exponent_additivity(a: QModel, b: QModel, d: Dimension)
    ensures
        spec_multiply(a, b).count_of(d) == a.count_of(d) + b.count_of(d),
{
}

/// A positive number over itself reduces to exactly one.
proof fn lemma_reduce_self(x: int)
    requires
        x >= 1,
    ensures
        reduce_pair(x, x) == (1int, 1int),
{
    lemma_mod_self_0(x);
    assert(gcd_nat(x as nat, x as nat) == x) by {
        assert(gcd_nat(x as nat, x as nat) == gcd_nat(x as nat, (x % x) as nat));
    }
    lemma_div_by_self(x);
    assert(exact_div_signed(x, x) == 1);
}

/// A pair times its own reciprocal reduces to exactly one.
proof fn lemma_pmul_recip_one(v: (int, int))
    requires
        v.1 > 0,
        v.0 != 0,
    ensures
        pmul(v, precip(v)) == (1int, 1int),
{
    if v.0 > 0 {
        assert(v.0 * v.1 >= 1) by (nonlinear_arith)
            requires
                v.0 >= 1,
                v.1 >= 1,
        ;
        lemma_reduce_self(v.0 * v.1);
        assert(v.1 * v.0 == v.0 * v.1) by (nonlinear_arith);
        assert(pmul(v, precip(v)) == reduce_pair(v.0 * v.1, v.0 * v.1));
    } else {
        assert(v.0 * -v.1 == v.1 * -v.0) by (nonlinear_arith);
        assert(v.0 * -v.1 >= 1) by (nonlinear_arith)
            requires
                v.0 <= -1,
                v.1 >= 1,
        ;
        lemma_reduce_self(v.0 * -v.1);
        assert(pmul(v, precip(v)) == reduce_pair(v.0 * -v.1, v.0 * -v.1));
    }
}

/// One times a pair with equal positive components reduces to one.
proof fn lemma_pmul_one_selfequal(f: (int, int))
    requires
        f.0 == f.1,
        f.0 >= 1,
    ensures
        pmul((1int, 1int), f) == (1int, 1int),
{
    assert(1 * f.0 == f.0 && 1 * f.1 == f.1) by (nonlinear_arith);
    lemma_reduce_self(f.0);
}

/// A self-equal positive factor raised to any power leaves the unit
/// magnitude at exactly one.
proof fn lemma_ppow_selfequal(f: (int, int), k: nat)
    requires
        f.0 == f.1,
        f.0 >= 1,
    ensures
        ppow(f, k) == (1int, 1int),
    decreases k,
{
    if k > 0 {
        lemma_ppow_selfequal(f, (k - 1) as nat);
        lemma_pmul_one_selfequal(f);
    }
}

/// Rescaling the unit magnitude by any power of a self-equal positive
/// factor leaves it at exactly one.
proof fn lemma_scaled_selfequal_one(f: (int, int), n: int)
    requires
        f.0 == f.1,
        f.0 >= 1,
    ensures
        spec_scaled((1int, 1int), f, n) == (1int, 1int),
{
    if n > 0 {
        lemma_ppow_selfequal(f, n as nat);
        lemma_pmul_one_selfequal((1int, 1int));
    } else if n < 0 {
        lemma_ppow_selfequal(f, (-n) as nat);
        lemma_pmul_one_selfequal((1int, 1int));
    }
}

/// Cancellation: a quantity of nonzero magnitude multiplied by its own
/// reciprocal is the dimensionless unit quantity — exponent zero and no
/// unit identity in every dimension, magnitude exactly one.
pub proof fn lemma_cancellation(q: QModel)
    requires
        q.value.1 > 0,
        q.value.0 != 0,
    ensures
        ({
            let r = spec_multiply(q, spec_reciprocal(q));
            &&& r.amount_of_substance_count == 0
            &&& r.electric_current_count == 0
            &&& r.length_count == 0
            &&& r.luminous_intensity_count == 0
            &&& r.mass_count == 0
            &&& r.temperature_count == 0
            &&& r.time_count == 0
            &&& r.amount_of_substance_unit is NoUnit
            &&& r.electric_current_unit is NoUnit
            &&& r.length_unit is NoUnit
            &&& r.luminous_intensity_unit is NoUnit
            &&& r.mass_unit is NoUnit
            &&& r.temperature_unit is NoUnit
            &&& r.time_unit is NoUnit
            &&& r.value == (1int, 1int)
        }),
{
    let b = spec_reciprocal(q);
    lemma_pmul_recip_one(q.value);
    let f1 = AmountOfSubstanceUnit::factor_pair(
        b.amount_of_substance_unit,
        q.amount_of_substance_unit,
    );
    assert(f1.0 == f1.1 && f1.0 >= 1);
    lemma_scaled_selfequal_one(f1, b.amount_of_substance_count);
    let f2 = ElectricCurrentUnit::factor_pair(b.electric_current_unit, q.electric_current_unit);
    assert(f2.0 == f2.1 && f2.0 >= 1);
    lemma_scaled_selfequal_one(f2, b.electric_current_count);
    let f3 = LengthUnit::factor_pair(b.length_unit, q.length_unit);
    assert(f3.0 == f3.1 && f3.0 >= 1);
    lemma_scaled_selfequal_one(f3, b.length_count);
    let f4 = LuminousIntensityUnit::factor_pair(
        b.luminous_intensity_unit,
        q.luminous_intensity_unit,
    );
    assert(f4.0 == f4.1 && f4.0 >= 1);
    lemma_scaled_selfequal_one(f4, b.luminous_intensity_count);
    let f5 = MassUnit::factor_pair(b.mass_unit, q.mass_unit);
    assert(f5.0 == f5.1 && f5.0 >= 1);
    lemma_scaled_selfequal_one(f5, b.mass_count);
    let f6 = TemperatureDeltaUnit::factor_pair(b.temperature_unit, q.temperature_unit);
    assert(f6.0 == f6.1 && f6.0 >= 1);
    lemma_scaled_selfequal_one(f6, b.temperature_count);
    let f7 = TimeUnit::factor_pair(b.time_unit, q.time_unit);
    assert(f7.0 == f7.1 && f7.0 >= 1);
    lemma_scaled_selfequal_one(f7, b.time_count);
}

/// Equivalence survives multiplying the sides by common factors.
proof fn lemma_equiv_scale_both(x: (int, int), y: (int, int), p: int, q: int)
    requires
        rat_equiv(x, y),
    ensures
        rat_equiv((x.0 * p, x.1 * q), (y.0 * p, y.1 * q)),
{
    assert((x.0 * p) * (y.1 * q) == (y.0 * p) * (x.1 * q)) by (nonlinear_arith)
        requires
            x.0 * y.1 == y.0 * x.1,
    ;
}

/// Equivalence is transitive through a pair with nonzero denominator.
proof fn lemma_equiv_trans(a: (int, int), b: (int, int), c: (int, int))
    requires
        b.1 != 0,
        rat_equiv(a, b),
        rat_equiv(b, c),
    ensures
        rat_equiv(a, c),
{
    assert(a.0 * c.1 == c.0 * a.1) by (nonlinear_arith)
        requires
            a.0 * b.1 == b.0 * a.1,
            b.0 * c.1 == c.0 * b.1,
            b.1 != 0,
    ;
}

/// A reduced product names the same rational as the plain product.
proof fn lemma_pmul_equiv(p: (int, int), q: (int, int))
    requires
        p.1 > 0,
        q.1 > 0,
    ensures
        pmul(p, q).1 > 0,
        rat_equiv(pmul(p, q), (p.0 * q.0, p.1 * q.1)),
{
    assert(p.1 * q.1 > 0) by (nonlinear_arith)
        requires
            p.1 > 0,
            q.1 > 0,
    ;
    lemma_reduce_pair(p.0 * q.0, p.1 * q.1);
}

/// The reduced power names the same rational as the componentwise power.
proof fn lemma_ppow_equiv(f: (int, int), k: nat)
    requires
        f.0 >= 1,
        f.1 >= 1,
    ensures
        ppow(f, k).0 >= 1,
        ppow(f, k).1 >= 1,
        rat_equiv(ppow(f, k), (pow(f.0, k), pow(f.1, k))),
    decreases k,
{
    crate::rational::lemma_ppow_pos(f, k);
    if k == 0 {
        assert(pow(f.0, 0) == 1 && pow(f.1, 0) == 1) by {
            vstd::arithmetic::power::lemma_pow0(f.0);
            vstd::arithmetic::power::lemma_pow0(f.1);
        }
    } else {
        let km = (k - 1) as nat;
        lemma_ppow_equiv(f, km);
        let p = ppow(f, km);
        lemma_pmul_equiv(p, f);
        lemma_equiv_scale_both(p, (pow(f.0, km), pow(f.1, km)), f.0, f.1);
        assert(pow(f.0, k) == f.0 * pow(f.0, km) && pow(f.1, k) == f.1 * pow(f.1, km)) by {
            reveal(pow);
        }
        lemma_pow_positive(f.1, km);
        assert(p.1 * f.1 != 0) by (nonlinear_arith)
            requires
                p.1 >= 1,
                f.1 >= 1,
        ;
        lemma_equiv_trans(ppow(f, k), (p.0 * f.0, p.1 * f.1), (pow(f.0, k), pow(f.1, k)));
    }
}

/// Rescaling by the `n`-th power of `f` names the same rational as
/// multiplying the numerator and denominator by the matching plain
/// powers; a negative `n` swaps the roles of the two components.
proof fn lemma_scaled_equiv(v: (int, int), f: (int, int), n: int)
    requires
        v.1 > 0,
        f.0 >= 1,
        f.1 >= 1,
    ensures
        spec_scaled(v, f, n).1 > 0,
        n >= 0 ==> rat_equiv(
            spec_scaled(v, f, n),
            (v.0 * pow(f.0, n as nat), v.1 * pow(f.1, n as nat)),
        ),
        n < 0 ==> rat_equiv(
            spec_scaled(v, f, n),
            (v.0 * pow(f.1, (-n) as nat), v.1 * pow(f.0, (-n) as nat)),
        ),
{
    if n == 0 {
        assert(pow(f.0, 0) == 1 && pow(f.1, 0) == 1) by {
            vstd::arithmetic::power::lemma_pow0(f.0);
            vstd::arithmetic::power::lemma_pow0(f.1);
        }
    } else if n > 0 {
        let k = n as nat;
        lemma_ppow_equiv(f, k);
        let p = ppow(f, k);
        lemma_pmul_equiv(v, p);
        lemma_equiv_scale_both(p, (pow(f.0, k), pow(f.1, k)), v.0, v.1);
        lemma_pow_positive(f.1, k);
        assert(v.1 * p.1 != 0) by (nonlinear_arith)
            requires
                v.1 >= 1,
                p.1 >= 1,
        ;
        assert(rat_equiv((v.0 * p.0, v.1 * p.1), (v.0 * pow(f.0, k), v.1 * pow(f.1, k))));
        lemma_equiv_trans(
            spec_scaled(v, f, n),
            (v.0 * p.0, v.1 * p.1),
            (v.0 * pow(f.0, k), v.1 * pow(f.1, k)),
        );
    } else {
        let k = (-n) as nat;
        lemma_ppow_equiv(f, k);
        let p = ppow(f, k);
        let pr = precip(p);
        lemma_pmul_equiv(v, pr);
        assert(pr == (p.1, p.0));
        assert(p.1 * pow(f.0, k) == pow(f.1, k) * p.0) by (nonlinear_arith)
            requires
                p.0 * pow(f.1, k) == pow(f.0, k) * p.1,
        ;
        assert(rat_equiv(pr, (pow(f.1, k), pow(f.0, k))));
        lemma_equiv_scale_both(pr, (pow(f.1, k), pow(f.0, k)), v.0, v.1);
        lemma_pow_positive(f.0, k);
        assert(v.1 * pr.1 != 0) by (nonlinear_arith)
            requires
                v.1 >= 1,
                pr.1 >= 1,
        ;
        assert((v.0 * pr.0) * (v.1 * pow(f.0, k)) == (v.0 * pow(f.1, k)) * (v.1 * pr.1))
            by (nonlinear_arith)
            requires
                (pr.0 * v.0) * (pow(f.0, k) * v.1) == (pow(f.1, k) * v.0) * (pr.1 * v.1),
        ;
        assert(rat_equiv((v.0 * pr.0, v.1 * pr.1), (v.0 * pow(f.1, k), v.1 * pow(f.0, k))));
        lemma_equiv_trans(
            spec_scaled(v, f, n),
            (v.0 * pr.0, v.1 * pr.1),
            (v.0 * pow(f.1, k), v.1 * pow(f.0, k)),
        );
    }
}

/// Rescaling through three telescoping scale-ratio factors — old unit
/// to first, first to second, second back to old — returns to the
/// original rational value, whatever the exponent.
proof fn lemma_round_trip_core(v: (int, int), s0: (int, int), s1: (int, int), s2: (int, int), n: int)
    requires
        v.1 > 0,
        s0.0 >= 1,
        s0.1 >= 1,
        s1.0 >= 1,
        s1.1 >= 1,
        s2.0 >= 1,
        s2.1 >= 1,
    ensures
        ({
            let f1 = (s1.0 * s0.1, s1.1 * s0.0);
            let f2 = (s2.0 * s1.1, s2.1 * s1.0);
            let f3 = (s0.0 * s2.1, s0.1 * s2.0);
            let w = spec_scaled(spec_scaled(spec_scaled(v, f1, n), f2, n), f3, n);
            w.1 > 0 && rat_equiv(w, v)
        }),
{
    let f1 = (s1.0 * s0.1, s1.1 * s0.0);
    let f2 = (s2.0 * s1.1, s2.1 * s1.0);
    let f3 = (s0.0 * s2.1, s0.1 * s2.0);
    assert(f1.0 >= 1 && f1.1 >= 1 && f2.0 >= 1 && f2.1 >= 1 && f3.0 >= 1 && f3.1 >= 1)
        by (nonlinear_arith)
        requires
            s0.0 >= 1,
            s0.1 >= 1,
            s1.0 >= 1,
            s1.1 >= 1,
            s2.0 >= 1,
            s2.1 >= 1,
            f1 == ((s1.0 * s0.1, s1.1 * s0.0)),
            f2 == ((s2.0 * s1.1, s2.1 * s1.0)),
            f3 == ((s0.0 * s2.1, s0.1 * s2.0)),
    ;
    let v1 = spec_scaled(v, f1, n);
    let v2 = spec_scaled(v1, f2, n);
    let w = spec_scaled(v2, f3, n);
    lemma_scaled_equiv(v, f1, n);
    lemma_scaled_equiv(v1, f2, n);
    lemma_scaled_equiv(v2, f3, n);
    if n != 0 {
        let k = if n > 0 {
            n as nat
        } else {
            (-n) as nat
        };
        let a1 = if n > 0 {
            f1.0
        } else {
            f1.1
        };
        let b1 = if n > 0 {
            f1.1
        } else {
            f1.0
        };
        let a2 = if n > 0 {
            f2.0
        } else {
            f2.1
        };
        let b2 = if n > 0 {
            f2.1
        } else {
            f2.0
        };
        let a3 = if n > 0 {
            f3.0
        } else {
            f3.1
        };
        let b3 = if n > 0 {
            f3.1
        } else {
            f3.0
        };
        if n > 0 {
            assert(a1 * a2 * a3 == b1 * b2 * b3) by (nonlinear_arith)
                requires
                    a1 == s1.0 * s0.1,
                    b1 == s1.1 * s0.0,
                    a2 == s2.0 * s1.1,
                    b2 == s2.1 * s1.0,
                    a3 == s0.0 * s2.1,
                    b3 == s0.1 * s2.0,
            ;
        } else {
            assert(a1 * a2 * a3 == b1 * b2 * b3) by (nonlinear_arith)
                requires
                    b1 == s1.0 * s0.1,
                    a1 == s1.1 * s0.0,
                    b2 == s2.0 * s1.1,
                    a2 == s2.1 * s1.0,
                    b3 == s0.0 * s2.1,
                    a3 == s0.1 * s2.0,
            ;
        }
        let w1 = (v.0 * pow(a1, k), v.1 * pow(b1, k));
        assert(rat_equiv(v1, w1));
        let x2 = (v1.0 * pow(a2, k), v1.1 * pow(b2, k));
        assert(rat_equiv(v2, x2));
        let w2 = (w1.0 * pow(a2, k), w1.1 * pow(b2, k));
        lemma_equiv_scale_both(v1, w1, pow(a2, k), pow(b2, k));
        lemma_pow_positive(b1, k);
        lemma_pow_positive(b2, k);
        lemma_pow_positive(b3, k);
        lemma_pow_positive(a1, k);
        lemma_pow_positive(a2, k);
        lemma_pow_positive(a3, k);
        assert(x2.1 != 0) by (nonlinear_arith)
            requires
                v1.1 > 0,
                pow(b2, k) > 0,
                x2.1 == v1.1 * pow(b2, k),
        ;
        lemma_equiv_trans(v2, x2, w2);
        let x3 = (v2.0 * pow(a3, k), v2.1 * pow(b3, k));
        assert(rat_equiv(w, x3));
        let w3 = (w2.0 * pow(a3, k), w2.1 * pow(b3, k));
        lemma_equiv_scale_both(v2, w2, pow(a3, k), pow(b3, k));
        assert(x3.1 != 0) by (nonlinear_arith)
            requires
                v2.1 > 0,
                pow(b3, k) > 0,
                x3.1 == v2.1 * pow(b3, k),
        ;
        lemma_equiv_trans(w, x3, w3);
        lemma_pow_distributes(a1, a2, k);
        lemma_pow_distributes(a1 * a2, a3, k);
        lemma_pow_distributes(b1, b2, k);
        lemma_pow_distributes(b1 * b2, b3, k);
        let pa = pow(a1 * a2 * a3, k);
        let pb = pow(b1 * b2 * b3, k);
        assert(pa == pb);
        assert(b1 * b2 * b3 > 0) by (nonlinear_arith)
            requires
                b1 >= 1,
                b2 >= 1,
                b3 >= 1,
        ;
        lemma_pow_positive(b1 * b2 * b3, k);
        assert(w3.0 == v.0 * pa && w3.1 == v.1 * pb) by (nonlinear_arith)
            requires
                w3.0 == ((v.0 * pow(a1, k)) * pow(a2, k)) * pow(a3, k),
                w3.1 == ((v.1 * pow(b1, k)) * pow(b2, k)) * pow(b3, k),
                pa == (pow(a1, k) * pow(a2, k)) * pow(a3, k),
                pb == (pow(b1, k) * pow(b2, k)) * pow(b3, k),
        ;
        assert(w3.0 * v.1 == v.0 * w3.1) by (nonlinear_arith)
            requires
                w3.0 == v.0 * pa,
                w3.1 == v.1 * pb,
                pa == pb,
        ;
        assert(rat_equiv(w3, v));
        assert(w3.1 != 0) by (nonlinear_arith)
            requires
                w3.1 == v.1 * pb,
                v.1 > 0,
                pb > 0,
        ;
        lemma_equiv_trans(w, w3, v);
    }
}

/// `u` names the unit that `q` currently carries in `u`'s dimension.
pub open spec fn names_current_unit(q: QModel, u: Unit) -> bool {
    match u.dim() {
        Dimension::AmountOfSubstance => q.amount_of_substance_unit == u.amount_part(),
        Dimension::ElectricCurrent => q.electric_current_unit == u.current_part(),
        Dimension::Mass => q.mass_unit == u.mass_part(),
        Dimension::Length => q.length_unit == u.length_part(),
        Dimension::LuminousIntensity => q.luminous_intensity_unit == u.luminous_part(),
        Dimension::Time => q.time_unit == u.time_part(),
        Dimension::Temperature => q.temperature_unit == u.temperature_part(),
    }
}

/// The round trip of `lemma_convert_round_trip`, for one dimension.
proof fn lemma_round_trip_amount_of_substance(q: QModel, u0: Unit, u1: Unit, u2: Unit)
    requires
        q.value.1 > 0,
        u0.dim() == Dimension::AmountOfSubstance,
        u1.dim() == u0.dim(),
        u2.dim() == u0.dim(),
        q.amount_of_substance_unit == u0.amount_part(),
    ensures
        ({
            let w = spec_convert(spec_convert(spec_convert(q, u1), u2), u0);
            &&& w.value.1 > 0
            &&& rat_equiv(w.value, q.value)
            &&& w == (QModel { value: w.value, ..q })
        }),
{
    let w = spec_convert(spec_convert(spec_convert(q, u1), u2), u0);
    if q.amount_of_substance_count == 0 {
        assert(w == q);
        assert(rat_equiv(q.value, q.value));
    } else {
        let o = u0.amount_part();
        let m1 = u1.amount_part();
        let m2 = u2.amount_part();
        assert(!(o is NoUnit) && !(m1 is NoUnit) && !(m2 is NoUnit));
        let s0 = o.scale();
        let s1 = m1.scale();
        let s2 = m2.scale();
        assert(s0.0 >= 1 && s0.1 >= 1 && s1.0 >= 1 && s1.1 >= 1 && s2.0 >= 1 && s2.1 >= 1);
        lemma_round_trip_core(q.value, s0, s1, s2, q.amount_of_substance_count);
        let f1 = (s1.0 * s0.1, s1.1 * s0.0);
        let f2 = (s2.0 * s1.1, s2.1 * s1.0);
        let f3 = (s0.0 * s2.1, s0.1 * s2.0);
        assert(AmountOfSubstanceUnit::factor_pair(q.amount_of_substance_unit, m1) == f1);
        assert(AmountOfSubstanceUnit::factor_pair(m1, m2) == f2);
        assert(AmountOfSubstanceUnit::factor_pair(m2, o) == f3);
        let q1 = spec_convert(q, u1);
        let q2 = spec_convert(q1, u2);
        assert(q1.value == spec_scaled(q.value, f1, q.amount_of_substance_count));
        assert(q2.value == spec_scaled(q1.value, f2, q.amount_of_substance_count));
        assert(w.value == spec_scaled(q2.value, f3, q.amount_of_substance_count));
        assert(w == (QModel { value: w.value, ..q }));
    }
}

/// The round trip of `lemma_convert_round_trip`, for one dimension.
proof fn lemma_round_trip_electric_current(q: QModel, u0: Unit, u1: Unit, u2: Unit)
    requires
        q.value.1 > 0,
        u0.dim() == Dimension::ElectricCurrent,
        u1.dim() == u0.dim(),
        u2.dim() == u0.dim(),
        q.electric_current_unit == u0.current_part(),
    ensures
        ({
            let w = spec_convert(spec_convert(spec_convert(q, u1), u2), u0);
            &&& w.value.1 > 0
            &&& rat_equiv(w.value, q.value)
            &&& w == (QModel { value: w.value, ..q })
        }),
{
    let w = spec_convert(spec_convert(spec_convert(q, u1), u2), u0);
    if q.electric_current_count == 0 {
        assert(w == q);
        assert(rat_equiv(q.value, q.value));
    } else {
        let o = u0.current_part();
        let m1 = u1.current_part();
        let m2 = u2.current_part();
        assert(!(o is NoUnit) && !(m1 is NoUnit) && !(m2 is NoUnit));
        let s0 = o.scale();
        let s1 = m1.scale();
        let s2 = m2.scale();
        assert(s0.0 >= 1 && s0.1 >= 1 && s1.0 >= 1 && s1.1 >= 1 && s2.0 >= 1 && s2.1 >= 1);
        lemma_round_trip_core(q.value, s0, s1, s2, q.electric_current_count);
        let f1 = (s1.0 * s0.1, s1.1 * s0.0);
        let f2 = (s2.0 * s1.1, s2.1 * s1.0);
        let f3 = (s0.0 * s2.1, s0.1 * s2.0);
        assert(ElectricCurrentUnit::factor_pair(q.electric_current_unit, m1) == f1);
        assert(ElectricCurrentUnit::factor_pair(m1, m2) == f2);
        assert(ElectricCurrentUnit::factor_pair(m2, o) == f3);
        let q1 = spec_convert(q, u1);
        let q2 = spec_convert(q1, u2);
        assert(q1.value == spec_scaled(q.value, f1, q.electric_current_count));
        assert(q2.value == spec_scaled(q1.value, f2, q.electric_current_count));
        assert(w.value == spec_scaled(q2.value, f3, q.electric_current_count));
        assert(w == (QModel { value: w.value, ..q }));
    }
}

/// The round trip of `lemma_convert_round_trip`, for one dimension.
proof fn lemma_round_trip_mass(q: QModel, u0: Unit, u1: Unit, u2: Unit)
    requires
        q.value.1 > 0,
        u0.dim() == Dimension::Mass,
        u1.dim() == u0.dim(),
        u2.dim() == u0.dim(),
        q.mass_unit == u0.mass_part(),
    ensures
        ({
            let w = spec_convert(spec_convert(spec_convert(q, u1), u2), u0);
            &&& w.value.1 > 0
            &&& rat_equiv(w.value, q.value)
            &&& w == (QModel { value: w.value, ..q })
        }),
{
    let w = spec_convert(spec_convert(spec_convert(q, u1), u2), u0);
    if q.mass_count == 0 {
        assert(w == q);
        assert(rat_equiv(q.value, q.value));
    } else {
        let o = u0.mass_part();
        let m1 = u1.mass_part();
        let m2 = u2.mass_part();
        assert(!(o is NoUnit) && !(m1 is NoUnit) && !(m2 is NoUnit));
        let s0 = o.scale();
        let s1 = m1.scale();
        let s2 = m2.scale();
        assert(s0.0 >= 1 && s0.1 >= 1 && s1.0 >= 1 && s1.1 >= 1 && s2.0 >= 1 && s2.1 >= 1);
        lemma_round_trip_core(q.value, s0, s1, s2, q.mass_count);
        let f1 = (s1.0 * s0.1, s1.1 * s0.0);
        let f2 = (s2.0 * s1.1, s2.1 * s1.0);
        let f3 = (s0.0 * s2.1, s0.1 * s2.0);
        assert(MassUnit::factor_pair(q.mass_unit, m1) == f1);
        assert(MassUnit::factor_pair(m1, m2) == f2);
        assert(MassUnit::factor_pair(m2, o) == f3);
        let q1 = spec_convert(q, u1);
        let q2 = spec_convert(q1, u2);
        assert(q1.value == spec_scaled(q.value, f1, q.mass_count));
        assert(q2.value == spec_scaled(q1.value, f2, q.mass_count));
        assert(w.value == spec_scaled(q2.value, f3, q.mass_count));
        assert(w == (QModel { value: w.value, ..q }));
    }
}

/// The round trip of `lemma_convert_round_trip`, for one dimension.
proof fn lemma_round_trip_length(q: QModel, u0: Unit, u1: Unit, u2: Unit)
    requires
        q.value.1 > 0,
        u0.dim() == Dimension::Length,
        u1.dim() == u0.dim(),
        u2.dim() == u0.dim(),
        q.length_unit == u0.length_part(),
    ensures
        ({
            let w = spec_convert(spec_convert(spec_convert(q, u1), u2), u0);
            &&& w.value.1 > 0
            &&& rat_equiv(w.value, q.value)
            &&& w == (QModel { value: w.value, ..q })
        }),
{
    let w = spec_convert(spec_convert(spec_convert(q, u1), u2), u0);
    if q.length_count == 0 {
        assert(w == q);
        assert(rat_equiv(q.value, q.value));
    } else {
        let o = u0.length_part();
        let m1 = u1.length_part();
        let m2 = u2.length_part();
        assert(!(o is NoUnit) && !(m1 is NoUnit) && !(m2 is NoUnit));
        let s0 = o.scale();
        let s1 = m1.scale();
        let s2 = m2.scale();
        assert(s0.0 >= 1 && s0.1 >= 1 && s1.0 >= 1 && s1.1 >= 1 && s2.0 >= 1 && s2.1 >= 1);
        lemma_round_trip_core(q.value, s0, s1, s2, q.length_count);
        let f1 = (s1.0 * s0.1, s1.1 * s0.0);
        let f2 = (s2.0 * s1.1, s2.1 * s1.0);
        let f3 = (s0.0 * s2.1, s0.1 * s2.0);
        assert(LengthUnit::factor_pair(q.length_unit, m1) == f1);
        assert(LengthUnit::factor_pair(m1, m2) == f2);
        assert(LengthUnit::factor_pair(m2, o) == f3);
        let q1 = spec_convert(q, u1);
        let q2 = spec_convert(q1, u2);
        assert(q1.value == spec_scaled(q.value, f1, q.length_count));
        assert(q2.value == spec_scaled(q1.value, f2, q.length_count));
        assert(w.value == spec_scaled(q2.value, f3, q.length_count));
        assert(w == (QModel { value: w.value, ..q }));
    }
}

/// The round trip of `lemma_convert_round_trip`, for one dimension.
proof fn lemma_round_trip_luminous_intensity(q: QModel, u0: Unit, u1: Unit, u2: Unit)
    requires
        q.value.1 > 0,
        u0.dim() == Dimension::LuminousIntensity,
        u1.dim() == u0.dim(),
        u2.dim() == u0.dim(),
        q.luminous_intensity_unit == u0.luminous_part(),
    ensures
        ({
            let w = spec_convert(spec_convert(spec_convert(q, u1), u2), u0);
            &&& w.value.1 > 0
            &&& rat_equiv(w.value, q.value)
            &&& w == (QModel { value: w.value, ..q })
        }),
{
    let w = spec_convert(spec_convert(spec_convert(q, u1), u2), u0);
    if q.luminous_intensity_count == 0 {
        assert(w == q);
        assert(rat_equiv(q.value, q.value));
    } else {
        let o = u0.luminous_part();
        let m1 = u1.luminous_part();
        let m2 = u2.luminous_part();
        assert(!(o is NoUnit) && !(m1 is NoUnit) && !(m2 is NoUnit));
        let s0 = o.scale();
        let s1 = m1.scale();
        let s2 = m2.scale();
        assert(s0.0 >= 1 && s0.1 >= 1 && s1.0 >= 1 && s1.1 >= 1 && s2.0 >= 1 && s2.1 >= 1);
        lemma_round_trip_core(q.value, s0, s1, s2, q.luminous_intensity_count);
        let f1 = (s1.0 * s0.1, s1.1 * s0.0);
        let f2 = (s2.0 * s1.1, s2.1 * s1.0);
        let f3 = (s0.0 * s2.1, s0.1 * s2.0);
        assert(LuminousIntensityUnit::factor_pair(q.luminous_intensity_unit, m1) == f1);
        assert(LuminousIntensityUnit::factor_pair(m1, m2) == f2);
        assert(LuminousIntensityUnit::factor_pair(m2, o) == f3);
        let q1 = spec_convert(q, u1);
        let q2 = spec_convert(q1, u2);
        assert(q1.value == spec_scaled(q.value, f1, q.luminous_intensity_count));
        assert(q2.value == spec_scaled(q1.value, f2, q.luminous_intensity_count));
        assert(w.value == spec_scaled(q2.value, f3, q.luminous_intensity_count));
        assert(w == (QModel { value: w.value, ..q }));
    }
}

/// The round trip of `lemma_convert_round_trip`, for one dimension.
proof fn lemma_round_trip_time(q: QModel, u0: Unit, u1: Unit, u2: Unit)
    requires
        q.value.1 > 0,
        u0.dim() == Dimension::Time,
        u1.dim() == u0.dim(),
        u2.dim() == u0.dim(),
        q.time_unit == u0.time_part(),
    ensures
        ({
            let w = spec_convert(spec_convert(spec_convert(q, u1), u2), u0);
            &&& w.value.1 > 0
            &&& rat_equiv(w.value, q.value)
            &&& w == (QModel { value: w.value, ..q })
        }),
{
    let w = spec_convert(spec_convert(spec_convert(q, u1), u2), u0);
    if q.time_count == 0 {
        assert(w == q);
        assert(rat_equiv(q.value, q.value));
    } else {
        let o = u0.time_part();
        let m1 = u1.time_part();
        let m2 = u2.time_part();
        assert(!(o is NoUnit) && !(m1 is NoUnit) && !(m2 is NoUnit));
        let s0 = o.scale();
        let s1 = m1.scale();
        let s2 = m2.scale();
        assert(s0.0 >= 1 && s0.1 >= 1 && s1.0 >= 1 && s1.1 >= 1 && s2.0 >= 1 && s2.1 >= 1);
        lemma_round_trip_core(q.value, s0, s1, s2, q.time_count);
        let f1 = (s1.0 * s0.1, s1.1 * s0.0);
        let f2 = (s2.0 * s1.1, s2.1 * s1.0);
        let f3 = (s0.0 * s2.1, s0.1 * s2.0);
        assert(TimeUnit::factor_pair(q.time_unit, m1) == f1);
        assert(TimeUnit::factor_pair(m1, m2) == f2);
        assert(TimeUnit::factor_pair(m2, o) == f3);
        let q1 = spec_convert(q, u1);
        let q2 = spec_convert(q1, u2);
        assert(q1.value == spec_scaled(q.value, f1, q.time_count));
        assert(q2.value == spec_scaled(q1.value, f2, q.time_count));
        assert(w.value == spec_scaled(q2.value, f3, q.time_count));
        assert(w == (QModel { value: w.value, ..q }));
    }
}

/// The round trip of `lemma_convert_round_trip`, for one dimension.
proof fn lemma_round_trip_temperature(q: QModel, u0: Unit, u1: Unit, u2: Unit)
    requires
        q.value.1 > 0,
        u0.dim() == Dimension::Temperature,
        u1.dim() == u0.dim(),
        u2.dim() == u0.dim(),
        q.temperature_unit == u0.temperature_part(),
    ensures
        ({
            let w = spec_convert(spec_convert(spec_convert(q, u1), u2), u0);
            &&& w.value.1 > 0
            &&& rat_equiv(w.value, q.value)
            &&& w == (QModel { value: w.value, ..q })
        }),
{
    let w = spec_convert(spec_convert(spec_convert(q, u1), u2), u0);
    if q.temperature_count == 0 {
        assert(w == q);
        assert(rat_equiv(q.value, q.value));
    } else {
        let o = u0.temperature_part();
        let m1 = u1.temperature_part();
        let m2 = u2.temperature_part();
        assert(!(o is NoUnit) && !(m1 is NoUnit) && !(m2 is NoUnit));
        let s0 = o.scale();
        let s1 = m1.scale();
        let s2 = m2.scale();
        assert(s0.0 >= 1 && s0.1 >= 1 && s1.0 >= 1 && s1.1 >= 1 && s2.0 >= 1 && s2.1 >= 1);
        lemma_round_trip_core(q.value, s0, s1, s2, q.temperature_count);
        let f1 = (s1.0 * s0.1, s1.1 * s0.0);
        let f2 = (s2.0 * s1.1, s2.1 * s1.0);
        let f3 = (s0.0 * s2.1, s0.1 * s2.0);
        assert(TemperatureDeltaUnit::factor_pair(q.temperature_unit, m1) == f1);
        assert(TemperatureDeltaUnit::factor_pair(m1, m2) == f2);
        assert(TemperatureDeltaUnit::factor_pair(m2, o) == f3);
        let q1 = spec_convert(q, u1);
        let q2 = spec_convert(q1, u2);
        assert(q1.value == spec_scaled(q.value, f1, q.temperature_count));
        assert(q2.value == spec_scaled(q1.value, f2, q.temperature_count));
        assert(w.value == spec_scaled(q2.value, f3, q.temperature_count));
        assert(w == (QModel { value: w.value, ..q }));
    }
}

/// Conversion round-trip: converting a quantity through any two units
/// of one dimension and back to the unit it started with restores the
/// original magnitude exactly.  `u0` names the concrete unit the
/// quantity currently carries in that dimension; exponents, units and
/// the rest of the quantity come back unchanged.
pub proof fn lemma_convert_round_trip(q: QModel, u0: Unit, u1: Unit, u2: Unit)
    requires
        q.value.1 > 0,
        u1.dim() == u0.dim(),
        u2.dim() == u0.dim(),
        names_current_unit(q, u0),
    ensures
        ({
            let w = spec_convert(spec_convert(spec_convert(q, u1), u2), u0);
            &&& w.value.1 > 0
            &&& rat_equiv(w.value, q.value)
            &&& w == (QModel { value: w.value, ..q })
        }),
{
    match u0.dim() {
        Dimension::AmountOfSubstance => lemma_round_trip_amount_of_substance(q, u0, u1, u2),
        Dimension::ElectricCurrent => lemma_round_trip_electric_current(q, u0, u1, u2),
        Dimension::Mass => lemma_round_trip_mass(q, u0, u1, u2),
        Dimension::Length => lemma_round_trip_length(q, u0, u1, u2),
        Dimension::LuminousIntensity => lemma_round_trip_luminous_intensity(q, u0, u1, u2),
        Dimension::Time => lemma_round_trip_time(q, u0, u1, u2),
        Dimension::Temperature => lemma_round_trip_temperature(q, u0, u1, u2),
    }
}

/// Render determinism: quantities with identical exponent, unit and
/// magnitude tuples render to identical strings, in every form.
pub proof fn lemma_render_deterministic(q1: EngUnit, q2: EngUnit)
    requires
        q1@ == q2@,
    ensures
        display_seq(q1@) == display_seq(q2@),
        unit_string_seq(q1@) == unit_string_seq(q2@),
        latex_seq(q1@) == latex_seq(q2@),
{
}

} // verus!
