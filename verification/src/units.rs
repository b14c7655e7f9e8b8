//! The unit registry: per-dimension enumerations of concrete units, their
//! display symbols, and pairwise conversion factors.
//!
//! Every unit carries an exact rational scale — how many of it make up one
//! base unit of its dimension — and the factor converting a value from one
//! unit to another of the same dimension is `scale(to) / scale(from)`.
//! The `NoUnit` sentinel of each dimension is conversion-neutral: any factor
//! involving it is exactly one.  Temperature units are the relative
//! (interval) family, so their factors are plain ratios with no offset.

use crate::rational::Rational;
use vstd::prelude::*;

verus! {

/// Bound on a unit scale's numerator and denominator; two scales can be
/// cross-multiplied without leaving `Rational`'s storage range.
pub const SCALE_MAX: i128 = 1000000000;

/// The seven SI base dimensions.
#[derive(Clone, Copy, Debug, PartialEq, Eq, Structural)]
pub enum Dimension {
    AmountOfSubstance,
    ElectricCurrent,
    Mass,
    Length,
    LuminousIntensity,
    Time,
    Temperature,
}

/// Amount of substance: mole.
#[derive(Clone, Copy, Debug, PartialEq, Eq, Structural)]
pub enum AmountOfSubstanceUnit {
    Mol,
    NoUnit,
}

/// Electric current: ampere.
#[derive(Clone, Copy, Debug, PartialEq, Eq, Structural)]
pub enum ElectricCurrentUnit {
    Ampere,
    NoUnit,
}

/// Length: metric and imperial units, base meter.
#[derive(Clone, Copy, Debug, PartialEq, Eq, Structural)]
pub enum LengthUnit {
    Kilometer,
    Meter,
    Centimeter,
    Millimeter,
    Inch,
    Foot,
    Yard,
    Mile,
    NoUnit,
}

/// Luminous intensity: candela.
#[derive(Clone, Copy, Debug, PartialEq, Eq, Structural)]
pub enum LuminousIntensityUnit {
    Candela,
    NoUnit,
}

/// Mass: kilogram and pound.
#[derive(Clone, Copy, Debug, PartialEq, Eq, Structural)]
pub enum MassUnit {
    Kilogram,
    Pound,
    NoUnit,
}

/// Temperature difference: Celsius, Rankine, Fahrenheit, Kelvin.
#[derive(Clone, Copy, Debug, PartialEq, Eq, Structural)]
pub enum TemperatureDeltaUnit {
    C,
    R,
    F,
    K,
    NoUnit,
}

/// Time: SI sub-second units up to hours, base second.
#[derive(Clone, Copy, Debug, PartialEq, Eq, Structural)]
pub enum TimeUnit {
    Nanosecond,
    Microsecond,
    Millisecond,
    Second,
    Minute,
    Hour,
    NoUnit,
}

/// A concrete unit of any dimension, for constructor and conversion
/// dispatch; `dimension` maps each variant to its owning dimension.
#[derive(Clone, Copy, Debug, PartialEq, Eq, Structural)]
pub enum Unit {
    Kilometer,
    Meter,
    Centimeter,
    Millimeter,
    Inch,
    Foot,
    Yard,
    Mile,
    Kilogram,
    Pound,
    Nanosecond,
    Microsecond,
    Millisecond,
    Second,
    Minute,
    Hour,
    KelvinChange,
    RankineChange,
    CelciusChange,
    FahrenheitChange,
    Ampere,
    Candela,
    Mol,
}

/// The conversion factor `scale(to) / scale(from)` between two units of
/// one dimension, left unreduced; one if either side is the sentinel.
pub open spec fn factor_of(from_none: bool, to_none: bool, from_scale: (int, int), to_scale: (int, int)) -> (int, int) {
    if from_none || to_none {
        (1int, 1int)
    } else {
        (to_scale.0 * from_scale.1, to_scale.1 * from_scale.0)
    }
}

impl AmountOfSubstanceUnit {
    /// Display symbol; the sentinel shows as the empty string.
    pub open spec fn symbol(self) -> Seq<char> {
        match self {
            AmountOfSubstanceUnit::Mol => "mol"@,
            AmountOfSubstanceUnit::NoUnit => ""@,
        }
    }

    /// Units per mole.
    pub open spec fn scale(self) -> (int, int) {
        (1int, 1int)
    }

    /// The factor converting a value in `from` to one in `to`.
    pub open spec fn factor_pair(from: AmountOfSubstanceUnit, to: AmountOfSubstanceUnit) -> (int, int) {
        factor_of(from is NoUnit, to is NoUnit, from.scale(), to.scale())
    }

    /// Display symbol of this unit.
    pub fn to_string(&self) -> (r: &'static str)
        ensures
            r@ == self.symbol(),
    {
        match self {
            AmountOfSubstanceUnit::Mol => "mol",
            AmountOfSubstanceUnit::NoUnit => "",
        }
    }

    /// Exact factor converting a value in `from` to one in `to`.
    pub fn conversion_factor(from: &AmountOfSubstanceUnit, to: &AmountOfSubstanceUnit) -> (r: Rational)
        ensures
            r.wf(),
            r@ == Self::factor_pair(*from, *to),
            r.num >= 1,
            r.den >= 1,
    {
        Rational::one()
    }
}

impl ElectricCurrentUnit {
    /// Display symbol; the sentinel shows as the empty string.
    pub open spec fn symbol(self) -> Seq<char> {
        match self {
            ElectricCurrentUnit::Ampere => "A"@,
            ElectricCurrentUnit::NoUnit => ""@,
        }
    }

    /// Units per ampere.
    pub open spec fn scale(self) -> (int, int) {
        (1int, 1int)
    }

    /// The factor converting a value in `from` to one in `to`.
    pub open spec fn factor_pair(from: ElectricCurrentUnit, to: ElectricCurrentUnit) -> (int, int) {
        factor_of(from is NoUnit, to is NoUnit, from.scale(), to.scale())
    }

    /// Display symbol of this unit.
    pub fn to_string(&self) -> (r: &'static str)
        ensures
            r@ == self.symbol(),
    {
        match self {
            ElectricCurrentUnit::Ampere => "A",
            ElectricCurrentUnit::NoUnit => "",
        }
    }

    /// Exact factor converting a value in `from` to one in `to`.
    pub fn conversion_factor(from: &ElectricCurrentUnit, to: &ElectricCurrentUnit) -> (r: Rational)
        ensures
            r.wf(),
            r@ == Self::factor_pair(*from, *to),
            r.num >= 1,
            r.den >= 1,
    {
        Rational::one()
    }
}

impl LengthUnit {
    /// Display symbol; the sentinel shows as the empty string.
    pub open spec fn symbol(self) -> Seq<char> {
        match self {
            LengthUnit::Kilometer => "km"@,
            LengthUnit::Meter => "m"@,
            LengthUnit::Centimeter => "cm"@,
            LengthUnit::Millimeter => "mm"@,
            LengthUnit::Inch => "in"@,
            LengthUnit::Foot => "ft"@,
            LengthUnit::Yard => "yard"@,
            LengthUnit::Mile => "mile"@,
            LengthUnit::NoUnit => ""@,
        }
    }

    /// Units per meter; the imperial units rest on the exact definition
    /// of the foot as 0.3048 meter.
    pub open spec fn scale(self) -> (int, int) {
        match self {
            LengthUnit::Kilometer => (1int, 1000int),
            LengthUnit::Meter => (1int, 1int),
            LengthUnit::Centimeter => (100int, 1int),
            LengthUnit::Millimeter => (1000int, 1int),
            LengthUnit::Inch => (5000int, 127int),
            LengthUnit::Foot => (1250int, 381int),
            LengthUnit::Yard => (1250int, 1143int),
            LengthUnit::Mile => (125int, 201168int),
            LengthUnit::NoUnit => (1int, 1int),
        }
    }

    /// The factor converting a value in `from` to one in `to`.
    pub open spec fn factor_pair(from: LengthUnit, to: LengthUnit) -> (int, int) {
        factor_of(from is NoUnit, to is NoUnit, from.scale(), to.scale())
    }

    /// Display symbol of this unit.
    pub fn to_string(&self) -> (r: &'static str)
        ensures
            r@ == self.symbol(),
    {
        match self {
            LengthUnit::Kilometer => "km",
            LengthUnit::Meter => "m",
            LengthUnit::Centimeter => "cm",
            LengthUnit::Millimeter => "mm",
            LengthUnit::Inch => "in",
            LengthUnit::Foot => "ft",
            LengthUnit::Yard => "yard",
            LengthUnit::Mile => "mile",
            LengthUnit::NoUnit => "",
        }
    }

    /// The stored scale as a rational value.
    fn scale_rational(&self) -> (r: Rational)
        ensures
            r@ == self.scale(),
            1 <= r.num <= SCALE_MAX,
            1 <= r.den <= SCALE_MAX,
    {
        match self {
            LengthUnit::Kilometer => Rational { num: 1, den: 1000 },
            LengthUnit::Meter => Rational { num: 1, den: 1 },
            LengthUnit::Centimeter => Rational { num: 100, den: 1 },
            LengthUnit::Millimeter => Rational { num: 1000, den: 1 },
            LengthUnit::Inch => Rational { num: 5000, den: 127 },
            LengthUnit::Foot => Rational { num: 1250, den: 381 },
            LengthUnit::Yard => Rational { num: 1250, den: 1143 },
            LengthUnit::Mile => Rational { num: 125, den: 201168 },
            LengthUnit::NoUnit => Rational { num: 1, den: 1 },
        }
    }

    /// Exact factor converting a value in `from` to one in `to`.
    pub fn conversion_factor(from: &LengthUnit, to: &LengthUnit) -> (r: Rational)
        ensures
            r.wf(),
            r@ == Self::factor_pair(*from, *to),
            r.num >= 1,
            r.den >= 1,
    {
        match (from, to) {
            (LengthUnit::NoUnit, _) => Rational::one(),
            (_, LengthUnit::NoUnit) => Rational::one(),
            _ => {
                let sf = from.scale_rational();
                let st = to.scale_rational();
                proof {
                    lemma_scale_product_bound(st.num as int, sf.den as int);
                    lemma_scale_product_bound(st.den as int, sf.num as int);
                }
                Rational { num: st.num * sf.den, den: st.den * sf.num }
            },
        }
    }
}

impl LuminousIntensityUnit {
    /// Display symbol; the sentinel shows as the empty string.
    pub open spec fn symbol(self) -> Seq<char> {
        match self {
            LuminousIntensityUnit::Candela => "cd"@,
            LuminousIntensityUnit::NoUnit => ""@,
        }
    }

    /// Units per candela.
    pub open spec fn scale(self) -> (int, int) {
        (1int, 1int)
    }

    /// The factor converting a value in `from` to one in `to`.
    pub open spec fn factor_pair(from: LuminousIntensityUnit, to: LuminousIntensityUnit) -> (int, int) {
        factor_of(from is NoUnit, to is NoUnit, from.scale(), to.scale())
    }

    /// Display symbol of this unit.
    pub fn to_string(&self) -> (r: &'static str)
        ensures
            r@ == self.symbol(),
    {
        match self {
            LuminousIntensityUnit::Candela => "cd",
            LuminousIntensityUnit::NoUnit => "",
        }
    }

    /// Exact factor converting a value in `from` to one in `to`.
    pub fn conversion_factor(from: &LuminousIntensityUnit, to: &LuminousIntensityUnit) -> (r: Rational)
        ensures
            r.wf(),
            r@ == Self::factor_pair(*from, *to),
            r.num >= 1,
            r.den >= 1,
    {
        Rational::one()
    }
}

impl MassUnit {
    /// Display symbol; the sentinel shows as the empty string.
    pub open spec fn symbol(self) -> Seq<char> {
        match self {
            MassUnit::Kilogram => "kg"@,
            MassUnit::Pound => "lb"@,
            MassUnit::NoUnit => ""@,
        }
    }

    /// Units per kilogram; one kilogram is exactly 2.20462262 pounds
    /// here, the documented kilogram-to-pound constant.
    pub open spec fn scale(self) -> (int, int) {
        match self {
            MassUnit::Kilogram => (1int, 1int),
            MassUnit::Pound => (110231131int, 50000000int),
            MassUnit::NoUnit => (1int, 1int),
        }
    }

    /// The factor converting a value in `from` to one in `to`.
    pub open spec fn factor_pair(from: MassUnit, to: MassUnit) -> (int, int) {
        factor_of(from is NoUnit, to is NoUnit, from.scale(), to.scale())
    }

    /// Display symbol of this unit.
    pub fn to_string(&self) -> (r: &'static str)
        ensures
            r@ == self.symbol(),
    {
        match self {
            MassUnit::Kilogram => "kg",
            MassUnit::Pound => "lb",
            MassUnit::NoUnit => "",
        }
    }

    /// The stored scale as a rational value.
    fn scale_rational(&self) -> (r: Rational)
        ensures
            r@ == self.scale(),
            1 <= r.num <= SCALE_MAX,
            1 <= r.den <= SCALE_MAX,
    {
        match self {
            MassUnit::Kilogram => Rational { num: 1, den: 1 },
            MassUnit::Pound => Rational { num: 110231131, den: 50000000 },
            MassUnit::NoUnit => Rational { num: 1, den: 1 },
        }
    }

    /// Exact factor converting a value in `from` to one in `to`.
    pub fn conversion_factor(from: &MassUnit, to: &MassUnit) -> (r: Rational)
        ensures
            r.wf(),
            r@ == Self::factor_pair(*from, *to),
            r.num >= 1,
            r.den >= 1,
    {
        match (from, to) {
            (MassUnit::NoUnit, _) => Rational::one(),
            (_, MassUnit::NoUnit) => Rational::one(),
            _ => {
                let sf = from.scale_rational();
                let st = to.scale_rational();
                proof {
                    lemma_scale_product_bound(st.num as int, sf.den as int);
                    lemma_scale_product_bound(st.den as int, sf.num as int);
                }
                Rational { num: st.num * sf.den, den: st.den * sf.num }
            },
        }
    }
}

impl TemperatureDeltaUnit {
    /// Display symbol; the sentinel shows as the empty string.
    pub open spec fn symbol(self) -> Seq<char> {
        match self {
            TemperatureDeltaUnit::R => "R"@,
            TemperatureDeltaUnit::K => "K"@,
            TemperatureDeltaUnit::C => "°C"@,
            TemperatureDeltaUnit::F => "°F"@,
            TemperatureDeltaUnit::NoUnit => ""@,
        }
    }

    /// LaTeX form of the symbol.
    pub open spec fn latex_symbol(self) -> Seq<char> {
        match self {
            TemperatureDeltaUnit::R => "R"@,
            TemperatureDeltaUnit::K => "K"@,
            TemperatureDeltaUnit::C => "^\\circ C"@,
            TemperatureDeltaUnit::F => "^\\circ F"@,
            TemperatureDeltaUnit::NoUnit => ""@,
        }
    }

    /// Units per kelvin of difference; Fahrenheit and Rankine degrees
    /// are nine fifths of a kelvin step.
    pub open spec fn scale(self) -> (int, int) {
        match self {
            TemperatureDeltaUnit::C => (1int, 1int),
            TemperatureDeltaUnit::K => (1int, 1int),
            TemperatureDeltaUnit::F => (9int, 5int),
            TemperatureDeltaUnit::R => (9int, 5int),
            TemperatureDeltaUnit::NoUnit => (1int, 1int),
        }
    }

    /// The factor converting a value in `from` to one in `to`.
    pub open spec fn factor_pair(from: TemperatureDeltaUnit, to: TemperatureDeltaUnit) -> (int, int) {
        factor_of(from is NoUnit, to is NoUnit, from.scale(), to.scale())
    }

    /// Display symbol of this unit.
    pub fn to_string(&self) -> (r: &'static str)
        ensures
            r@ == self.symbol(),
    {
        match self {
            TemperatureDeltaUnit::R => "R",
            TemperatureDeltaUnit::K => "K",
            TemperatureDeltaUnit::C => "°C",
            TemperatureDeltaUnit::F => "°F",
            TemperatureDeltaUnit::NoUnit => "",
        }
    }

    /// LaTeX form of the symbol.
    pub fn to_latex(&self) -> (r: &'static str)
        ensures
            r@ == self.latex_symbol(),
    {
        match self {
            TemperatureDeltaUnit::R => "R",
            TemperatureDeltaUnit::K => "K",
            TemperatureDeltaUnit::C => "^\\circ C",
            TemperatureDeltaUnit::F => "^\\circ F",
            TemperatureDeltaUnit::NoUnit => "",
        }
    }

    /// The stored scale as a rational value.
    fn scale_rational(&self) -> (r: Rational)
        ensures
            r@ == self.scale(),
            1 <= r.num <= SCALE_MAX,
            1 <= r.den <= SCALE_MAX,
    {
        match self {
            TemperatureDeltaUnit::C => Rational { num: 1, den: 1 },
            TemperatureDeltaUnit::K => Rational { num: 1, den: 1 },
            TemperatureDeltaUnit::F => Rational { num: 9, den: 5 },
            TemperatureDeltaUnit::R => Rational { num: 9, den: 5 },
            TemperatureDeltaUnit::NoUnit => Rational { num: 1, den: 1 },
        }
    }

    /// Exact factor converting a value in `from` to one in `to`.
    pub fn conversion_factor(from: &TemperatureDeltaUnit, to: &TemperatureDeltaUnit) -> (r: Rational)
        ensures
            r.wf(),
            r@ == Self::factor_pair(*from, *to),
            r.num >= 1,
            r.den >= 1,
    {
        match (from, to) {
            (TemperatureDeltaUnit::NoUnit, _) => Rational::one(),
            (_, TemperatureDeltaUnit::NoUnit) => Rational::one(),
            _ => {
                let sf = from.scale_rational();
                let st = to.scale_rational();
                proof {
                    lemma_scale_product_bound(st.num as int, sf.den as int);
                    lemma_scale_product_bound(st.den as int, sf.num as int);
                }
                Rational { num: st.num * sf.den, den: st.den * sf.num }
            },
        }
    }
}

impl TimeUnit {
    /// Display symbol; the sentinel shows as the empty string.
    pub open spec fn symbol(self) -> Seq<char> {
        match self {
            TimeUnit::Nanosecond => "ns"@,
            TimeUnit::Microsecond => "us"@,
            TimeUnit::Millisecond => "ms"@,
            TimeUnit::Second => "s"@,
            TimeUnit::Minute => "min"@,
            TimeUnit::Hour => "hr"@,
            TimeUnit::NoUnit => ""@,
        }
    }

    /// Units per second.
    pub open spec fn scale(self) -> (int, int) {
        match self {
            TimeUnit::Nanosecond => (1000000000int, 1int),
            TimeUnit::Microsecond => (1000000int, 1int),
            TimeUnit::Millisecond => (1000int, 1int),
            TimeUnit::Second => (1int, 1int),
            TimeUnit::Minute => (1int, 60int),
            TimeUnit::Hour => (1int, 3600int),
            TimeUnit::NoUnit => (1int, 1int),
        }
    }

    /// The factor converting a value in `from` to one in `to`.
    pub open spec fn factor_pair(from: TimeUnit, to: TimeUnit) -> (int, int) {
        factor_of(from is NoUnit, to is NoUnit, from.scale(), to.scale())
    }

    /// Display symbol of this unit.
    pub fn to_string(&self) -> (r: &'static str)
        ensures
            r@ == self.symbol(),
    {
        match self {
            TimeUnit::Nanosecond => "ns",
            TimeUnit::Microsecond => "us",
            TimeUnit::Millisecond => "ms",
            TimeUnit::Second => "s",
            TimeUnit::Minute => "min",
            TimeUnit::Hour => "hr",
            TimeUnit::NoUnit => "",
        }
    }

    /// The stored scale as a rational value.
    fn scale_rational(&self) -> (r: Rational)
        ensures
            r@ == self.scale(),
            1 <= r.num <= SCALE_MAX,
            1 <= r.den <= SCALE_MAX,
    {
        match self {
            TimeUnit::Nanosecond => Rational { num: 1000000000, den: 1 },
            TimeUnit::Microsecond => Rational { num: 1000000, den: 1 },
            TimeUnit::Millisecond => Rational { num: 1000, den: 1 },
            TimeUnit::Second => Rational { num: 1, den: 1 },
            TimeUnit::Minute => Rational { num: 1, den: 60 },
            TimeUnit::Hour => Rational { num: 1, den: 3600 },
            TimeUnit::NoUnit => Rational { num: 1, den: 1 },
        }
    }

    /// Exact factor converting a value in `from` to one in `to`.
    pub fn conversion_factor(from: &TimeUnit, to: &TimeUnit) -> (r: Rational)
        ensures
            r.wf(),
            r@ == Self::factor_pair(*from, *to),
            r.num >= 1,
            r.den >= 1,
    {
        match (from, to) {
            (TimeUnit::NoUnit, _) => Rational::one(),
            (_, TimeUnit::NoUnit) => Rational::one(),
            _ => {
                let sf = from.scale_rational();
                let st = to.scale_rational();
                proof {
                    lemma_scale_product_bound(st.num as int, sf.den as int);
                    lemma_scale_product_bound(st.den as int, sf.num as int);
                }
                Rational { num: st.num * sf.den, den: st.den * sf.num }
            },
        }
    }
}

/// Cross products of two unit scales stay inside the rational bound.
proof fn lemma_scale_product_bound(x: int, y: int)
    requires
        1 <= x <= SCALE_MAX,
        1 <= y <= SCALE_MAX,
    ensures
        1 <= x * y <= crate::rational::MAG_LIMIT,
{
    assert(1 <= x * y <= SCALE_MAX * SCALE_MAX) by (nonlinear_arith)
        requires
            1 <= x <= SCALE_MAX,
            1 <= y <= SCALE_MAX,
    ;
}

impl Unit {
    /// The dimension this concrete unit measures.
    pub open spec fn dim(self) -> Dimension {
        match self {
            Unit::Kilometer => Dimension::Length,
            Unit::Meter => Dimension::Length,
            Unit::Centimeter => Dimension::Length,
            Unit::Millimeter => Dimension::Length,
            Unit::Inch => Dimension::Length,
            Unit::Foot => Dimension::Length,
            Unit::Yard => Dimension::Length,
            Unit::Mile => Dimension::Length,
            Unit::Kilogram => Dimension::Mass,
            Unit::Pound => Dimension::Mass,
            Unit::Nanosecond => Dimension::Time,
            Unit::Microsecond => Dimension::Time,
            Unit::Millisecond => Dimension::Time,
            Unit::Second => Dimension::Time,
            Unit::Minute => Dimension::Time,
            Unit::Hour => Dimension::Time,
            Unit::KelvinChange => Dimension::Temperature,
            Unit::RankineChange => Dimension::Temperature,
            Unit::CelciusChange => Dimension::Temperature,
            Unit::FahrenheitChange => Dimension::Temperature,
            Unit::Ampere => Dimension::ElectricCurrent,
            Unit::Candela => Dimension::LuminousIntensity,
            Unit::Mol => Dimension::AmountOfSubstance,
        }
    }

    /// The dimension this concrete unit measures.
    pub fn dimension(&self) -> (d: Dimension)
        ensures
            d == self.dim(),
    {
        match self {
            Unit::Kilometer | Unit::Meter | Unit::Centimeter | Unit::Millimeter
                | Unit::Inch | Unit::Foot | Unit::Yard | Unit::Mile => Dimension::Length,
            Unit::Kilogram | Unit::Pound => Dimension::Mass,
            Unit::Nanosecond | Unit::Microsecond | Unit::Millisecond | Unit::Second
                | Unit::Minute | Unit::Hour => Dimension::Time,
            Unit::KelvinChange | Unit::RankineChange | Unit::CelciusChange
                | Unit::FahrenheitChange => Dimension::Temperature,
            Unit::Ampere => Dimension::ElectricCurrent,
            Unit::Candela => Dimension::LuminousIntensity,
            Unit::Mol => Dimension::AmountOfSubstance,
        }
    }

    /// This unit as a length unit; the sentinel for other dimensions.
    pub open spec fn length_part(self) -> LengthUnit {
        match self {
            Unit::Kilometer => LengthUnit::Kilometer,
            Unit::Meter => LengthUnit::Meter,
            Unit::Centimeter => LengthUnit::Centimeter,
            Unit::Millimeter => LengthUnit::Millimeter,
            Unit::Inch => LengthUnit::Inch,
            Unit::Foot => LengthUnit::Foot,
            Unit::Yard => LengthUnit::Yard,
            Unit::Mile => LengthUnit::Mile,
            _ => LengthUnit::NoUnit,
        }
    }

    /// This unit as a mass unit; the sentinel for other dimensions.
    pub open spec fn mass_part(self) -> MassUnit {
        match self {
            Unit::Kilogram => MassUnit::Kilogram,
            Unit::Pound => MassUnit::Pound,
            _ => MassUnit::NoUnit,
        }
    }

    /// This unit as a time unit; the sentinel for other dimensions.
    pub open spec fn time_part(self) -> TimeUnit {
        match self {
            Unit::Nanosecond => TimeUnit::Nanosecond,
            Unit::Microsecond => TimeUnit::Microsecond,
            Unit::Millisecond => TimeUnit::Millisecond,
            Unit::Second => TimeUnit::Second,
            Unit::Minute => TimeUnit::Minute,
            Unit::Hour => TimeUnit::Hour,
            _ => TimeUnit::NoUnit,
        }
    }

    /// This unit as a temperature unit; the sentinel for other dimensions.
    pub open spec fn temperature_part(self) -> TemperatureDeltaUnit {
        match self {
            Unit::KelvinChange => TemperatureDeltaUnit::K,
            Unit::RankineChange => TemperatureDeltaUnit::R,
            Unit::CelciusChange => TemperatureDeltaUnit::C,
            Unit::FahrenheitChange => TemperatureDeltaUnit::F,
            _ => TemperatureDeltaUnit::NoUnit,
        }
    }

    /// This unit as a current unit; the sentinel for other dimensions.
    pub open spec fn current_part(self) -> ElectricCurrentUnit {
        match self {
            Unit::Ampere => ElectricCurrentUnit::Ampere,
            _ => ElectricCurrentUnit::NoUnit,
        }
    }

    /// This unit as a luminous-intensity unit; the sentinel otherwise.
    pub open spec fn luminous_part(self) -> LuminousIntensityUnit {
        match self {
            Unit::Candela => LuminousIntensityUnit::Candela,
            _ => LuminousIntensityUnit::NoUnit,
        }
    }

    /// This unit as an amount-of-substance unit; the sentinel otherwise.
    pub open spec fn amount_part(self) -> AmountOfSubstanceUnit {
        match self {
            Unit::Mol => AmountOfSubstanceUnit::Mol,
            _ => AmountOfSubstanceUnit::NoUnit,
        }
    }

    /// The length unit this selector names.
    pub fn as_length_unit(&self) -> (r: LengthUnit)
        ensures
            r == self.length_part(),
    {
        match self {
            Unit::Kilometer => LengthUnit::Kilometer,
            Unit::Meter => LengthUnit::Meter,
            Unit::Centimeter => LengthUnit::Centimeter,
            Unit::Millimeter => LengthUnit::Millimeter,
            Unit::Inch => LengthUnit::Inch,
            Unit::Foot => LengthUnit::Foot,
            Unit::Yard => LengthUnit::Yard,
            Unit::Mile => LengthUnit::Mile,
            _ => LengthUnit::NoUnit,
        }
    }

    /// The mass unit this selector names.
    pub fn as_mass_unit(&self) -> (r: MassUnit)
        ensures
            r == self.mass_part(),
    {
        match self {
            Unit::Kilogram => MassUnit::Kilogram,
            Unit::Pound => MassUnit::Pound,
            _ => MassUnit::NoUnit,
        }
    }

    /// The time unit this selector names.
    pub fn as_time_unit(&self) -> (r: TimeUnit)
        ensures
            r == self.time_part(),
    {
        match self {
            Unit::Nanosecond => TimeUnit::Nanosecond,
            Unit::Microsecond => TimeUnit::Microsecond,
            Unit::Millisecond => TimeUnit::Millisecond,
            Unit::Second => TimeUnit::Second,
            Unit::Minute => TimeUnit::Minute,
            Unit::Hour => TimeUnit::Hour,
            _ => TimeUnit::NoUnit,
        }
    }

    /// The temperature unit this selector names.
    pub fn as_temperature_unit(&self) -> (r: TemperatureDeltaUnit)
        ensures
            r == self.temperature_part(),
    {
        match self {
            Unit::KelvinChange => TemperatureDeltaUnit::K,
            Unit::RankineChange => TemperatureDeltaUnit::R,
            Unit::CelciusChange => TemperatureDeltaUnit::C,
            Unit::FahrenheitChange => TemperatureDeltaUnit::F,
            _ => TemperatureDeltaUnit::NoUnit,
        }
    }

    /// The electric-current unit this selector names.
    pub fn as_current_unit(&self) -> (r: ElectricCurrentUnit)
        ensures
            r == self.current_part(),
    {
        match self {
            Unit::Ampere => ElectricCurrentUnit::Ampere,
            _ => ElectricCurrentUnit::NoUnit,
        }
    }

    /// The luminous-intensity unit this selector names.
    pub fn as_luminous_unit(&self) -> (r: LuminousIntensityUnit)
        ensures
            r == self.luminous_part(),
    {
        match self {
            Unit::Candela => LuminousIntensityUnit::Candela,
            _ => LuminousIntensityUnit::NoUnit,
        }
    }

    /// The amount-of-substance unit this selector names.
    pub fn as_amount_unit(&self) -> (r: AmountOfSubstanceUnit)
        ensures
            r == self.amount_part(),
    {
        match self {
            Unit::Mol => AmountOfSubstanceUnit::Mol,
            _ => AmountOfSubstanceUnit::NoUnit,
        }
    }
}

/// The base unit of each dimension: the unit whose scale is one.
pub open spec fn base_of(d: Dimension) -> Unit {
    match d {
        Dimension::Length => Unit::Meter,
        Dimension::Mass => Unit::Kilogram,
        Dimension::Time => Unit::Second,
        Dimension::Temperature => Unit::KelvinChange,
        Dimension::ElectricCurrent => Unit::Ampere,
        Dimension::LuminousIntensity => Unit::Candela,
        Dimension::AmountOfSubstance => Unit::Mol,
    }
}

/// The base unit of the dimension that `unit` belongs to.
pub fn get_base_unit(unit: &Unit) -> (r: Unit)
    ensures
        r == base_of(unit.dim()),
{
    match unit.dimension() {
        Dimension::Length => Unit::Meter,
        Dimension::Mass => Unit::Kilogram,
        Dimension::Time => Unit::Second,
        Dimension::Temperature => Unit::KelvinChange,
        Dimension::ElectricCurrent => Unit::Ampere,
        Dimension::LuminousIntensity => Unit::Candela,
        Dimension::AmountOfSubstance => Unit::Mol,
    }
}

} // verus!
