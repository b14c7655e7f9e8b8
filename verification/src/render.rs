//! Rendering: the human-readable form of a quantity.
//!
//! Dimensions are scanned in one fixed canonical order — amount of
//! substance, electric current, mass, length, luminous intensity, time,
//! temperature — so output is deterministic.  A positive exponent puts
//! its unit in the numerator, a negative one in the denominator with the
//! exponent's magnitude; tokens are joined with a middle dot and the two
//! sides with a slash.  The magnitude is printed with exactly two
//! decimals, rounding halves away from zero.

use crate::quantity::EngUnit;
use crate::quantity::QModel;
use crate::rational::Rational;
use vstd::prelude::*;
use vstd::string::StringExecFns;

verus! {

/// The decimal digit character for `d` in zero to nine.
pub open spec fn digit_char(d: int) -> char {
    if d == 0 {
        '0'
    } else if d == 1 {
        '1'
    } else if d == 2 {
        '2'
    } else if d == 3 {
        '3'
    } else if d == 4 {
        '4'
    } else if d == 5 {
        '5'
    } else if d == 6 {
        '6'
    } else if d == 7 {
        '7'
    } else if d == 8 {
        '8'
    } else {
        '9'
    }
}

/// The decimal digits of `n`, most significant first, no leading zeros
/// except for zero itself.
pub open spec fn dec_digits(n: nat) -> Seq<char>
    decreases n,
{
    if n < 10 {
        seq![digit_char(n as int)]
    } else {
        dec_digits(n / 10) + seq![digit_char((n % 10) as int)]
    }
}

/// The magnitude of `v` scaled to hundredths and rounded to the nearest
/// integer, halves away from zero.
pub open spec fn round2_scaled(v: (int, int)) -> int {
    let m = if v.0 < 0 {
        -v.0
    } else {
        v.0
    };
    let q = (m * 100) / v.1;
    let r = (m * 100) % v.1;
    if 2 * r >= v.1 {
        q + 1
    } else {
        q
    }
}

/// `v` printed with exactly two decimals: optional minus sign, integer
/// digits, a point, and the two hundredths digits.
pub open spec fn fixed2_seq(v: (int, int)) -> Seq<char> {
    let s = round2_scaled(v);
    let sign: Seq<char> = if v.0 < 0 {
        seq!['-']
    } else {
        Seq::<char>::empty()
    };
    sign + dec_digits((s / 100) as nat) + seq!['.'] + seq![
        digit_char((s / 10) % 10),
        digit_char(s % 10),
    ]
}

/// `v` printed plainly: bare integer digits when the value is a whole
/// number, otherwise the two-decimal form.
pub open spec fn plain_seq(v: (int, int)) -> Seq<char> {
    let m = if v.0 < 0 {
        -v.0
    } else {
        v.0
    };
    if m % v.1 == 0 {
        let sign: Seq<char> = if v.0 < 0 {
            seq!['-']
        } else {
            Seq::<char>::empty()
        };
        sign + dec_digits((m / v.1) as nat)
    } else {
        fixed2_seq(v)
    }
}

/// A numerator token: the symbol alone for exponent one, else the
/// symbol with a caret and the exponent.
pub open spec fn num_term(sym: Seq<char>, c: int) -> Seq<char> {
    if c == 1 {
        sym
    } else {
        sym + seq!['^'] + dec_digits(c as nat)
    }
}

/// A denominator token: the symbol alone for exponent minus one, else
/// the symbol with a caret and the exponent's magnitude.
pub open spec fn den_term(sym: Seq<char>, c: int) -> Seq<char> {
    if c == -1 {
        sym
    } else {
        sym + seq!['^'] + dec_digits((-c) as nat)
    }
}

/// Appends a token to a partial join: the separator goes in front of
/// every token but the first.
pub open spec fn acc_join(acc: (Seq<char>, bool), sep: Seq<char>, t: Seq<char>) -> (Seq<char>, bool) {
    if acc.1 {
        (acc.0 + sep + t, true)
    } else {
        (acc.0 + t, true)
    }
}

/// Folds one dimension into the numerator join: contributes a token
/// exactly when the exponent is positive.
pub open spec fn acc_num(acc: (Seq<char>, bool), sep: Seq<char>, sym: Seq<char>, c: int) -> (
    Seq<char>,
    bool,
) {
    if c >= 1 {
        acc_join(acc, sep, num_term(sym, c))
    } else {
        acc
    }
}

/// Folds one dimension into the denominator join: contributes a token
/// exactly when the exponent is negative.
pub open spec fn acc_den(acc: (Seq<char>, bool), sep: Seq<char>, sym: Seq<char>, c: int) -> (
    Seq<char>,
    bool,
) {
    if c <= -1 {
        acc_join(acc, sep, den_term(sym, c))
    } else {
        acc
    }
}

/// The numerator of the unit string: every dimension with a positive
/// exponent, in canonical order, joined by `sep`.
pub open spec fn numerator_part(m: QModel, sep: Seq<char>) -> (Seq<char>, bool) {
    let a0 = (Seq::<char>::empty(), false);
    let a1 = acc_num(a0, sep, m.amount_of_substance_unit.symbol(), m.amount_of_substance_count);
    let a2 = acc_num(a1, sep, m.electric_current_unit.symbol(), m.electric_current_count);
    let a3 = acc_num(a2, sep, m.mass_unit.symbol(), m.mass_count);
    let a4 = acc_num(a3, sep, m.length_unit.symbol(), m.length_count);
    let a5 = acc_num(a4, sep, m.luminous_intensity_unit.symbol(), m.luminous_intensity_count);
    let a6 = acc_num(a5, sep, m.time_unit.symbol(), m.time_count);
    acc_num(a6, sep, m.temperature_unit.symbol(), m.temperature_count)
}

/// The denominator of the unit string: every dimension with a negative
/// exponent, in canonical order, joined by `sep`.
pub open spec fn denominator_part(m: QModel, sep: Seq<char>) -> (Seq<char>, bool) {
    let a0 = (Seq::<char>::empty(), false);
    let a1 = acc_den(a0, sep, m.amount_of_substance_unit.symbol(), m.amount_of_substance_count);
    let a2 = acc_den(a1, sep, m.electric_current_unit.symbol(), m.electric_current_count);
    let a3 = acc_den(a2, sep, m.mass_unit.symbol(), m.mass_count);
    let a4 = acc_den(a3, sep, m.length_unit.symbol(), m.length_count);
    let a5 = acc_den(a4, sep, m.luminous_intensity_unit.symbol(), m.luminous_intensity_count);
    let a6 = acc_den(a5, sep, m.time_unit.symbol(), m.time_count);
    acc_den(a6, sep, m.temperature_unit.symbol(), m.temperature_count)
}

/// The unit string: numerator tokens, then a slash and the denominator
/// tokens if any dimension has a negative exponent.
pub open spec fn unit_string_seq(m: QModel) -> Seq<char> {
    let ns = numerator_part(m, seq!['·']).0;
    let dp = denominator_part(m, seq!['·']);
    if dp.1 {
        ns + seq!['/'] + dp.0
    } else {
        ns
    }
}

/// The display form: the magnitude with two decimals and, when some
/// dimension is active, a space and the unit string.
pub open spec fn display_seq(m: QModel) -> Seq<char> {
    if m.has_dims() {
        fixed2_seq(m.value) + seq![' '] + unit_string_seq(m)
    } else {
        fixed2_seq(m.value)
    }
}

/// The LaTeX numerator: tokens for the positive exponents, in canonical
/// order, concatenated; the temperature symbol takes its LaTeX form.
pub open spec fn latex_numerator_part(m: QModel) -> (Seq<char>, bool) {
    let sep = Seq::<char>::empty();
    let a0 = (Seq::<char>::empty(), false);
    let a1 = acc_num(a0, sep, m.amount_of_substance_unit.symbol(), m.amount_of_substance_count);
    let a2 = acc_num(a1, sep, m.electric_current_unit.symbol(), m.electric_current_count);
    let a3 = acc_num(a2, sep, m.mass_unit.symbol(), m.mass_count);
    let a4 = acc_num(a3, sep, m.length_unit.symbol(), m.length_count);
    let a5 = acc_num(a4, sep, m.luminous_intensity_unit.symbol(), m.luminous_intensity_count);
    let a6 = acc_num(a5, sep, m.time_unit.symbol(), m.time_count);
    acc_num(a6, sep, m.temperature_unit.latex_symbol(), m.temperature_count)
}

/// The LaTeX denominator: tokens for the negative exponents, in
/// canonical order, concatenated.
pub open spec fn latex_denominator_part(m: QModel) -> (Seq<char>, bool) {
    let sep = Seq::<char>::empty();
    let a0 = (Seq::<char>::empty(), false);
    let a1 = acc_den(a0, sep, m.amount_of_substance_unit.symbol(), m.amount_of_substance_count);
    let a2 = acc_den(a1, sep, m.electric_current_unit.symbol(), m.electric_current_count);
    let a3 = acc_den(a2, sep, m.mass_unit.symbol(), m.mass_count);
    let a4 = acc_den(a3, sep, m.length_unit.symbol(), m.length_count);
    let a5 = acc_den(a4, sep, m.luminous_intensity_unit.symbol(), m.luminous_intensity_count);
    let a6 = acc_den(a5, sep, m.time_unit.symbol(), m.time_count);
    acc_den(a6, sep, m.temperature_unit.latex_symbol(), m.temperature_count)
}

/// The LaTeX form: the plainly printed magnitude between dollar signs;
/// when a dimension is active, an escaped space and the unit tokens,
/// denominator behind a slash.
pub open spec fn latex_seq(m: QModel) -> Seq<char> {
    if m.has_dims() {
        let ns = latex_numerator_part(m).0;
        let dp = latex_denominator_part(m);
        seq!['$'] + plain_seq(m.value) + seq!['\\', ' '] + ns + (
        if dp.1 {
            seq!['/'] + dp.0
        } else {
            Seq::<char>::empty()
        }) + seq!['$']
    } else {
        seq!['$'] + plain_seq(m.value) + seq!['$']
    }
}

/// The human name of a dimensional shape, for the exponent tuples the
/// table knows; nothing for any other tuple.
pub open spec fn name_of_counts(m: QModel) -> Option<Seq<char>> {
    if m.electric_current_count != 0 || m.luminous_intensity_count != 0
        || m.amount_of_substance_count != 0 {
        Option::None
    } else {
        let l = m.length_count;
        let ms = m.mass_count;
        let t = m.time_count;
        let te = m.temperature_count;
        if l == 0 && ms == 0 && t == 0 && te == 1 {
            Option::Some("temperature"@)
        } else if te != 0 {
            Option::None
        } else if l == 1 && ms == 0 && t == 0 {
            Option::Some("length"@)
        } else if l == 2 && ms == 0 && t == 0 {
            Option::Some("area"@)
        } else if l == 3 && ms == 0 && t == 0 {
            Option::Some("volume"@)
        } else if l == 0 && ms == 0 && t == 1 {
            Option::Some("time"@)
        } else if l == 0 && ms == 0 && t == -1 {
            Option::Some("frequency"@)
        } else if l == 1 && ms == 0 && t == -1 {
            Option::Some("velocity"@)
        } else if l == 1 && ms == 0 && t == -2 {
            Option::Some("acceleration"@)
        } else if l == 1 && ms == 0 && t == -3 {
            Option::Some("jerk"@)
        } else if l == 0 && ms == 1 && t == 0 {
            Option::Some("mass"@)
        } else if l == 0 && ms == 1 && t == -1 {
            Option::Some("mass rate of change"@)
        } else if l == 1 && ms == 1 && t == -2 {
            Option::Some("force"@)
        } else if l == 2 && ms == 1 && t == -2 {
            Option::Some("energy"@)
        } else {
            Option::None
        }
    }
}

/// Appends one decimal digit.
fn push_digit(out: &mut String, d: i128)
    requires
        0 <= d <= 9,
    ensures
        final(out)@ == old(out)@ + seq![digit_char(d as int)],
{
    proof {
        reveal_strlit("0");
        reveal_strlit("1");
        reveal_strlit("2");
        reveal_strlit("3");
        reveal_strlit("4");
        reveal_strlit("5");
        reveal_strlit("6");
        reveal_strlit("7");
        reveal_strlit("8");
        reveal_strlit("9");
    }
    if d == 0 {
        out.append("0");
    } else if d == 1 {
        out.append("1");
    } else if d == 2 {
        out.append("2");
    } else if d == 3 {
        out.append("3");
    } else if d == 4 {
        out.append("4");
    } else if d == 5 {
        out.append("5");
    } else if d == 6 {
        out.append("6");
    } else if d == 7 {
        out.append("7");
    } else if d == 8 {
        out.append("8");
    } else {
        out.append("9");
    }
    proof {
        assert(final(out)@ =~= old(out)@ + seq![digit_char(d as int)]);
    }
}

/// Appends the decimal digits of a non-negative number.
fn push_digits(out: &mut String, n: i128)
    requires
        0 <= n,
    ensures
        final(out)@ == old(out)@ + dec_digits(n as nat),
    decreases n,
{
    if n < 10 {
        push_digit(out, n);
    } else {
        push_digits(out, n / 10);
        push_digit(out, n % 10);
        proof {
            assert(final(out)@ =~= old(out)@ + dec_digits(n as nat));
        }
    }
}

/// The magnitude printed with exactly two decimals, rounding halves
/// away from zero.
pub fn fixed2_string(v: &Rational) -> (r: String)
    requires
        v.wf(),
    ensures
        r@ == fixed2_seq(v@),
{
    let mut out = String::new();
    if v.num < 0 {
        proof {
            reveal_strlit("-");
        }
        out.append("-");
        proof {
            assert(out@ =~= seq!['-']);
        }
    }
    let m: i128 = if v.num < 0 {
        -v.num
    } else {
        v.num
    };
    let t: i128 = m * 100;
    let q: i128 = t / v.den;
    let rem: i128 = t % v.den;
    let s: i128 = if 2 * rem >= v.den {
        q + 1
    } else {
        q
    };
    assert(s == round2_scaled(v@));
    push_digits(&mut out, s / 100);
    proof {
        reveal_strlit(".");
    }
    out.append(".");
    push_digit(&mut out, (s / 10) % 10);
    push_digit(&mut out, s % 10);
    proof {
        assert(out@ =~= fixed2_seq(v@));
    }
    out
}

/// The magnitude printed plainly: bare digits for a whole number, the
/// two-decimal form otherwise.
pub fn plain_string(v: &Rational) -> (r: String)
    requires
        v.wf(),
    ensures
        r@ == plain_seq(v@),
{
    let m: i128 = if v.num < 0 {
        -v.num
    } else {
        v.num
    };
    if m % v.den == 0 {
        let mut out = String::new();
        if v.num < 0 {
            proof {
                reveal_strlit("-");
            }
            out.append("-");
            proof {
                assert(out@ =~= seq!['-']);
            }
        }
        push_digits(&mut out, m / v.den);
        proof {
            assert(out@ =~= plain_seq(v@));
        }
        out
    } else {
        fixed2_string(v)
    }
}

/// Appends one dimension's numerator token, with the separator in front
/// of every token but the first; returns whether any token has been
/// written so far.
fn append_num_term(out: &mut String, any: bool, sep: &str, sym: &str, count: i32) -> (r: bool)
    ensures
        (final(out)@, r) == acc_num((old(out)@, any), sep@, sym@, count as int),
{
    if count >= 1 {
        if any {
            out.append(sep);
        }
        out.append(sym);
        if count >= 2 {
            proof {
                reveal_strlit("^");
            }
            out.append("^");
            push_digits(out, count as i128);
        }
        proof {
            assert(final(out)@ =~= acc_num((old(out)@, any), sep@, sym@, count as int).0);
        }
        true
    } else {
        any
    }
}

/// Appends one dimension's denominator token, with the separator in
/// front of every token but the first; returns whether any token has
/// been written so far.
fn append_den_term(out: &mut String, any: bool, sep: &str, sym: &str, count: i32) -> (r: bool)
    ensures
        (final(out)@, r) == acc_den((old(out)@, any), sep@, sym@, count as int),
{
    if count <= -1 {
        if any {
            out.append(sep);
        }
        out.append(sym);
        if count <= -2 {
            proof {
                reveal_strlit("^");
            }
            out.append("^");
            let mag: i128 = -(count as i64) as i128;
            push_digits(out, mag);
        }
        proof {
            assert(final(out)@ =~= acc_den((old(out)@, any), sep@, sym@, count as int).0);
        }
        true
    } else {
        any
    }
}

impl EngUnit {
    /// The unit string of this quantity: numerator tokens joined with a
    /// middle dot, a slash and the denominator tokens if any dimension
    /// has a negative exponent, dimensions in canonical order.
    #[verifier::rlimit(60)]
    pub fn unit_to_string(&self) -> (r: String)
        ensures
            r@ == unit_string_seq(self@),
    {
        proof {
            reveal_strlit("·");
            assert("·"@ =~= seq!['·']);
        }
        let mut nums = String::new();
        let mut any: bool = false;
        any = append_num_term(
            &mut nums,
            any,
            "·",
            self.amount_of_substance_unit.to_string(),
            self.amount_of_substance_count,
        );
        any = append_num_term(
            &mut nums,
            any,
            "·",
            self.electric_current_unit.to_string(),
            self.electric_current_count,
        );
        any = append_num_term(&mut nums, any, "·", self.mass_unit.to_string(), self.mass_count);
        any = append_num_term(&mut nums, any, "·", self.length_unit.to_string(), self.length_count);
        any = append_num_term(
            &mut nums,
            any,
            "·",
            self.luminous_intensity_unit.to_string(),
            self.luminous_intensity_count,
        );
        any = append_num_term(&mut nums, any, "·", self.time_unit.to_string(), self.time_count);
        any = append_num_term(
            &mut nums,
            any,
            "·",
            self.temperature_unit.to_string(),
            self.temperature_count,
        );
        let mut dens = String::new();
        let mut any_d: bool = false;
        any_d = append_den_term(
            &mut dens,
            any_d,
            "·",
            self.amount_of_substance_unit.to_string(),
            self.amount_of_substance_count,
        );
        any_d = append_den_term(
            &mut dens,
            any_d,
            "·",
            self.electric_current_unit.to_string(),
            self.electric_current_count,
        );
        any_d = append_den_term(&mut dens, any_d, "·", self.mass_unit.to_string(), self.mass_count);
        any_d = append_den_term(
            &mut dens,
            any_d,
            "·",
            self.length_unit.to_string(),
            self.length_count,
        );
        any_d = append_den_term(
            &mut dens,
            any_d,
            "·",
            self.luminous_intensity_unit.to_string(),
            self.luminous_intensity_count,
        );
        any_d = append_den_term(&mut dens, any_d, "·", self.time_unit.to_string(), self.time_count);
        any_d = append_den_term(
            &mut dens,
            any_d,
            "·",
            self.temperature_unit.to_string(),
            self.temperature_count,
        );
        if any_d {
            proof {
                reveal_strlit("/");
            }
            nums.append("/");
            nums.append(dens.as_str());
            proof {
                assert(nums@ =~= unit_string_seq(self@));
            }
        }
        nums
    }

    /// The display form of this quantity: the magnitude with two
    /// decimals and, when any dimension is active, a space and the
    /// unit string.
    pub fn to_display_string(&self) -> (r: String)
        requires
            self.wf(),
        ensures
            r@ == display_seq(self@),
    {
        let mut out = fixed2_string(&self.value);
        if self.has_units() {
            proof {
                reveal_strlit(" ");
            }
            out.append(" ");
            let units = self.unit_to_string();
            out.append(units.as_str());
            proof {
                assert(out@ =~= display_seq(self@));
            }
        }
        out
    }

    /// The name of this quantity's dimensional shape — "velocity",
    /// "force", "energy" and the like — resolved by exact match on the
    /// exponent tuple; an unnamed shape falls back to the raw unit
    /// string.
    pub fn unit_name(&self) -> (r: String)
        ensures
            r@ == match name_of_counts(self@) {
                Option::Some(s) => s,
                Option::None => unit_string_seq(self@),
            },
    {
        if self.electric_current_count != 0 || self.luminous_intensity_count != 0
            || self.amount_of_substance_count != 0 {
            return self.unit_to_string();
        }
        let l = self.length_count;
        let ms = self.mass_count;
        let t = self.time_count;
        let te = self.temperature_count;
        if l == 0 && ms == 0 && t == 0 && te == 1 {
            String::from_str("temperature")
        } else if te != 0 {
            self.unit_to_string()
        } else if l == 1 && ms == 0 && t == 0 {
            String::from_str("length")
        } else if l == 2 && ms == 0 && t == 0 {
            String::from_str("area")
        } else if l == 3 && ms == 0 && t == 0 {
            String::from_str("volume")
        } else if l == 0 && ms == 0 && t == 1 {
            String::from_str("time")
        } else if l == 0 && ms == 0 && t == -1 {
            String::from_str("frequency")
        } else if l == 1 && ms == 0 && t == -1 {
            String::from_str("velocity")
        } else if l == 1 && ms == 0 && t == -2 {
            String::from_str("acceleration")
        } else if l == 1 && ms == 0 && t == -3 {
            String::from_str("jerk")
        } else if l == 0 && ms == 1 && t == 0 {
            String::from_str("mass")
        } else if l == 0 && ms == 1 && t == -1 {
            String::from_str("mass rate of change")
        } else if l == 1 && ms == 1 && t == -2 {
            String::from_str("force")
        } else if l == 2 && ms == 1 && t == -2 {
            String::from_str("energy")
        } else {
            self.unit_to_string()
        }
    }

    /// The LaTeX form of this quantity: the plainly printed magnitude
    /// between dollar signs and, when any dimension is active, an
    /// escaped space and the unit tokens with the temperature symbol in
    /// its LaTeX spelling.
    #[verifier::spinoff_prover]
    #[verifier::rlimit(100)]
    pub fn to_latex(&self) -> (r: String)
        requires
            self.wf(),
        ensures
            r@ == latex_seq(self@),
    {
        proof {
            reveal_strlit("$");
            reveal_strlit("\\ ");
            reveal_strlit("");
            assert("$"@ =~= seq!['$']);
            assert("\\ "@ =~= seq!['\\', ' ']);
            assert(""@ =~= Seq::<char>::empty());
        }
        let mut out = String::new();
        out.append("$");
        let v = plain_string(&self.value);
        out.append(v.as_str());
        if self.has_units() {
            out.append("\\ ");
            let mut nums = String::new();
            let mut any: bool = false;
            any = append_num_term(
                &mut nums,
                any,
                "",
                self.amount_of_substance_unit.to_string(),
                self.amount_of_substance_count,
            );
            any = append_num_term(
                &mut nums,
                any,
                "",
                self.electric_current_unit.to_string(),
                self.electric_current_count,
            );
            any = append_num_term(&mut nums, any, "", self.mass_unit.to_string(), self.mass_count);
            any = append_num_term(
                &mut nums,
                any,
                "",
                self.length_unit.to_string(),
                self.length_count,
            );
            any = append_num_term(
                &mut nums,
                any,
                "",
                self.luminous_intensity_unit.to_string(),
                self.luminous_intensity_count,
            );
            any = append_num_term(&mut nums, any, "", self.time_unit.to_string(), self.time_count);
            any = append_num_term(
                &mut nums,
                any,
                "",
                self.temperature_unit.to_latex(),
                self.temperature_count,
            );
            out.append(nums.as_str());
            let mut dens = String::new();
            let mut any_d: bool = false;
            any_d = append_den_term(
                &mut dens,
                any_d,
                "",
                self.amount_of_substance_unit.to_string(),
                self.amount_of_substance_count,
            );
            any_d = append_den_term(
                &mut dens,
                any_d,
                "",
                self.electric_current_unit.to_string(),
                self.electric_current_count,
            );
            any_d = append_den_term(
                &mut dens,
                any_d,
                "",
                self.mass_unit.to_string(),
                self.mass_count,
            );
            any_d = append_den_term(
                &mut dens,
                any_d,
                "",
                self.length_unit.to_string(),
                self.length_count,
            );
            any_d = append_den_term(
                &mut dens,
                any_d,
                "",
                self.luminous_intensity_unit.to_string(),
                self.luminous_intensity_count,
            );
            any_d = append_den_term(
                &mut dens,
                any_d,
                "",
                self.time_unit.to_string(),
                self.time_count,
            );
            any_d = append_den_term(
                &mut dens,
                any_d,
                "",
                self.temperature_unit.to_latex(),
                self.temperature_count,
            );
            if any_d {
                proof {
                    reveal_strlit("/");
                }
                out.append("/");
                out.append(dens.as_str());
            }
        }
        out.append("$");
        proof {
            assert(out@ =~= latex_seq(self@));
        }
        out
    }
}

} // verus!
