//! Typed physical quantities stored in canonical sub-SI magnitudes.
//!
//! Every quantity is an integer count of a fixed canonical granule of its
//! SI base unit (microvolts, microamperes, microcoulombs, microjoules,
//! microwatts, seconds, millikelvin), so construction from any recognized
//! source sub-unit is an exact multiplication and conversion back is an
//! exact division.  Arithmetic is restricted to dimensionally valid
//! combinations: charge times potential gives energy, current times
//! potential gives power, energy over energy gives a ratio, and energy
//! over power gives a time.

use core::cmp::Ordering;

use vstd::prelude::*;

verus! {

/// Electric potential, canonically in microvolts.
#[derive(Clone, Copy, Debug, PartialEq, Eq, Structural)]
pub struct ElectricPotential {
    micro_volts: u64,
}

impl ElectricPotential {
    /// Canonical magnitude in microvolts.
    pub closed spec fn value(self) -> int {
        self.micro_volts as int
    }

    pub fn from_volts(raw: u64) -> (r: ElectricPotential)
        requires
            raw * 1_000_000 <= u64::MAX,
        ensures
            r.value() == raw * 1_000_000,
    {
        ElectricPotential { micro_volts: raw * 1_000_000 }
    }

    pub fn from_millivolts(raw: u64) -> (r: ElectricPotential)
        requires
            raw * 1_000 <= u64::MAX,
        ensures
            r.value() == raw * 1_000,
    {
        ElectricPotential { micro_volts: raw * 1_000 }
    }

    pub fn from_microvolts(raw: u64) -> (r: ElectricPotential)
        ensures
            r.value() == raw,
    {
        ElectricPotential { micro_volts: raw }
    }

    pub fn as_volts(&self) -> (r: u64)
        ensures
            r == self.value() / 1_000_000,
    {
        self.micro_volts / 1_000_000
    }

    pub fn as_millivolts(&self) -> (r: u64)
        ensures
            r == self.value() / 1_000,
    {
        self.micro_volts / 1_000
    }

    pub fn as_microvolts(&self) -> (r: u64)
        ensures
            r == self.value(),
    {
        self.micro_volts
    }
}

/// Electric current, canonically in microamperes.
#[derive(Clone, Copy, Debug, PartialEq, Eq, Structural)]
pub struct ElectricCurrent {
    micro_amperes: u64,
}

impl ElectricCurrent {
    /// Canonical magnitude in microamperes.
    pub closed spec fn value(self) -> int {
        self.micro_amperes as int
    }

    pub fn from_amperes(raw: u64) -> (r: ElectricCurrent)
        requires
            raw * 1_000_000 <= u64::MAX,
        ensures
            r.value() == raw * 1_000_000,
    {
        ElectricCurrent { micro_amperes: raw * 1_000_000 }
    }

    pub fn from_milliamperes(raw: u64) -> (r: ElectricCurrent)
        requires
            raw * 1_000 <= u64::MAX,
        ensures
            r.value() == raw * 1_000,
    {
        ElectricCurrent { micro_amperes: raw * 1_000 }
    }

    pub fn from_microamperes(raw: u64) -> (r: ElectricCurrent)
        ensures
            r.value() == raw,
    {
        ElectricCurrent { micro_amperes: raw }
    }

    pub fn as_amperes(&self) -> (r: u64)
        ensures
            r == self.value() / 1_000_000,
    {
        self.micro_amperes / 1_000_000
    }

    pub fn as_milliamperes(&self) -> (r: u64)
        ensures
            r == self.value() / 1_000,
    {
        self.micro_amperes / 1_000
    }

    pub fn as_microamperes(&self) -> (r: u64)
        ensures
            r == self.value(),
    {
        self.micro_amperes
    }

    /// Instantaneous power drawn or delivered at the given potential.
    pub fn power_at(&self, potential: &ElectricPotential) -> (r: Power)
        requires
            self.value() * potential.value() / 1_000_000 <= u64::MAX,
        ensures
            r.value() == self.value() * potential.value() / 1_000_000,
    {
        let wide: u128 = mul_u64_wide(self.micro_amperes, potential.micro_volts);
        Power { micro_watts: (wide / 1_000_000) as u64 }
    }

    /// As [`Self::power_at`], reporting a magnitude beyond the canonical
    /// range as `None` instead of requiring the bound up front.
    pub fn checked_power_at(&self, potential: &ElectricPotential) -> (r: Option<Power>)
        ensures
            match r {
                Some(p) => self.value() * potential.value() / 1_000_000 <= u64::MAX
                    && p.value() == self.value() * potential.value() / 1_000_000,
                None => self.value() * potential.value() / 1_000_000 > u64::MAX,
            },
    {
        let wide: u128 = mul_u64_wide(self.micro_amperes, potential.micro_volts);
        let scaled: u128 = wide / 1_000_000;
        if scaled <= u64::MAX as u128 {
            Some(Power { micro_watts: scaled as u64 })
        } else {
            None
        }
    }
}

/// Electric charge, canonically in microcoulombs.
#[derive(Clone, Copy, Debug, PartialEq, Eq, Structural)]
pub struct ElectricCharge {
    micro_coulombs: u64,
}

impl ElectricCharge {
    /// Canonical magnitude in microcoulombs.
    pub closed spec fn value(self) -> int {
        self.micro_coulombs as int
    }

    pub fn from_ampere_hours(raw: u64) -> (r: ElectricCharge)
        requires
            raw * 3_600_000_000 <= u64::MAX,
        ensures
            r.value() == raw * 3_600_000_000,
    {
        ElectricCharge { micro_coulombs: raw * 3_600_000_000 }
    }

    pub fn from_milliampere_hours(raw: u64) -> (r: ElectricCharge)
        requires
            raw * 3_600_000 <= u64::MAX,
        ensures
            r.value() == raw * 3_600_000,
    {
        ElectricCharge { micro_coulombs: raw * 3_600_000 }
    }

    pub fn from_microampere_hours(raw: u64) -> (r: ElectricCharge)
        requires
            raw * 3_600 <= u64::MAX,
        ensures
            r.value() == raw * 3_600,
    {
        ElectricCharge { micro_coulombs: raw * 3_600 }
    }

    /// As [`Self::from_microampere_hours`], reporting a magnitude beyond
    /// the canonical range as `None`.
    pub fn checked_from_microampere_hours(raw: u64) -> (r: Option<ElectricCharge>)
        ensures
            match r {
                Some(c) => raw * 3_600 <= u64::MAX && c.value() == raw * 3_600,
                None => raw * 3_600 > u64::MAX,
            },
    {
        if raw <= u64::MAX / 3_600 {
            proof {
                assert(raw * 3_600 <= (u64::MAX / 3_600) * 3_600) by (nonlinear_arith)
                    requires
                        raw <= u64::MAX / 3_600,
                ;
            }
            Some(ElectricCharge { micro_coulombs: raw * 3_600 })
        } else {
            None
        }
    }

    pub fn as_ampere_hours(&self) -> (r: u64)
        ensures
            r == self.value() / 3_600_000_000,
    {
        self.micro_coulombs / 3_600_000_000
    }

    pub fn as_milliampere_hours(&self) -> (r: u64)
        ensures
            r == self.value() / 3_600_000,
    {
        self.micro_coulombs / 3_600_000
    }

    pub fn as_microampere_hours(&self) -> (r: u64)
        ensures
            r == self.value() / 3_600,
    {
        self.micro_coulombs / 3_600
    }

    pub fn as_microcoulombs(&self) -> (r: u64)
        ensures
            r == self.value(),
    {
        self.micro_coulombs
    }

    pub fn is_zero(&self) -> (r: bool)
        ensures
            r == (self.value() == 0),
            self.value() >= 0,
    {
        self.micro_coulombs == 0
    }

    /// Energy stored when this charge sits at the given potential.
    pub fn energy_at(&self, potential: &ElectricPotential) -> (r: Energy)
        requires
            self.value() * potential.value() / 1_000_000 <= u64::MAX,
        ensures
            r.value() == self.value() * potential.value() / 1_000_000,
    {
        let wide: u128 = mul_u64_wide(self.micro_coulombs, potential.micro_volts);
        Energy { micro_joules: (wide / 1_000_000) as u64 }
    }

    /// As [`Self::energy_at`], reporting a magnitude beyond the canonical
    /// range as `None` instead of requiring the bound up front.
    pub fn checked_energy_at(&self, potential: &ElectricPotential) -> (r: Option<Energy>)
        ensures
            match r {
                Some(e) => self.value() * potential.value() / 1_000_000 <= u64::MAX
                    && e.value() == self.value() * potential.value() / 1_000_000,
                None => self.value() * potential.value() / 1_000_000 > u64::MAX,
            },
    {
        let wide: u128 = mul_u64_wide(self.micro_coulombs, potential.micro_volts);
        let scaled: u128 = wide / 1_000_000;
        if scaled <= u64::MAX as u128 {
            Some(Energy { micro_joules: scaled as u64 })
        } else {
            None
        }
    }

    /// The fraction of `whole` that this charge represents, clamped into
    /// the unit interval.
    pub fn bounded_ratio(&self, whole: &ElectricCharge) -> (r: Ratio)
        ensures
            (r.numer(), r.denom()) == bounded_pair(self.value(), whole.value()),
            0 <= r.numer() <= r.denom(),
    {
        bounded_ratio_of(self.micro_coulombs, whole.micro_coulombs)
    }
}

/// Energy, canonically in microjoules.
#[derive(Clone, Copy, Debug, PartialEq, Eq, Structural)]
pub struct Energy {
    micro_joules: u64,
}

impl Energy {
    /// Canonical magnitude in microjoules.
    pub closed spec fn value(self) -> int {
        self.micro_joules as int
    }

    pub fn from_joules(raw: u64) -> (r: Energy)
        requires
            raw * 1_000_000 <= u64::MAX,
        ensures
            r.value() == raw * 1_000_000,
    {
        Energy { micro_joules: raw * 1_000_000 }
    }

    pub fn from_watt_hours(raw: u64) -> (r: Energy)
        requires
            raw * 3_600_000_000 <= u64::MAX,
        ensures
            r.value() == raw * 3_600_000_000,
    {
        Energy { micro_joules: raw * 3_600_000_000 }
    }

    pub fn from_milliwatt_hours(raw: u64) -> (r: Energy)
        requires
            raw * 3_600_000 <= u64::MAX,
        ensures
            r.value() == raw * 3_600_000,
    {
        Energy { micro_joules: raw * 3_600_000 }
    }

    pub fn from_microwatt_hours(raw: u64) -> (r: Energy)
        requires
            raw * 3_600 <= u64::MAX,
        ensures
            r.value() == raw * 3_600,
    {
        Energy { micro_joules: raw * 3_600 }
    }

    /// As [`Self::from_microwatt_hours`], reporting a magnitude beyond
    /// the canonical range as `None`.
    pub fn checked_from_microwatt_hours(raw: u64) -> (r: Option<Energy>)
        ensures
            match r {
                Some(e) => raw * 3_600 <= u64::MAX && e.value() == raw * 3_600,
                None => raw * 3_600 > u64::MAX,
            },
    {
        if raw <= u64::MAX / 3_600 {
            proof {
                assert(raw * 3_600 <= (u64::MAX / 3_600) * 3_600) by (nonlinear_arith)
                    requires
                        raw <= u64::MAX / 3_600,
                ;
            }
            Some(Energy { micro_joules: raw * 3_600 })
        } else {
            None
        }
    }

    pub fn as_joules(&self) -> (r: u64)
        ensures
            r == self.value() / 1_000_000,
    {
        self.micro_joules / 1_000_000
    }

    pub fn as_watt_hours(&self) -> (r: u64)
        ensures
            r == self.value() / 3_600_000_000,
    {
        self.micro_joules / 3_600_000_000
    }

    pub fn as_milliwatt_hours(&self) -> (r: u64)
        ensures
            r == self.value() / 3_600_000,
    {
        self.micro_joules / 3_600_000
    }

    pub fn as_microwatt_hours(&self) -> (r: u64)
        ensures
            r == self.value() / 3_600,
    {
        self.micro_joules / 3_600
    }

    pub fn as_microjoules(&self) -> (r: u64)
        ensures
            r == self.value(),
    {
        self.micro_joules
    }

    pub fn is_zero(&self) -> (r: bool)
        ensures
            r == (self.value() == 0),
            self.value() >= 0,
    {
        self.micro_joules == 0
    }

    pub fn at_least(&self, other: &Energy) -> (r: bool)
        ensures
            r == (self.value() >= other.value()),
    {
        self.micro_joules >= other.micro_joules
    }

    /// The amount by which `self` exceeds `other`, or zero.
    pub fn surplus_over(&self, other: &Energy) -> (r: Energy)
        ensures
            r.value() == if self.value() >= other.value() {
                self.value() - other.value()
            } else {
                0int
            },
    {
        if self.micro_joules >= other.micro_joules {
            Energy { micro_joules: self.micro_joules - other.micro_joules }
        } else {
            Energy { micro_joules: 0 }
        }
    }

    /// The fraction of `whole` that this energy represents, clamped into
    /// the unit interval.
    pub fn bounded_ratio(&self, whole: &Energy) -> (r: Ratio)
        ensures
            (r.numer(), r.denom()) == bounded_pair(self.value(), whole.value()),
            0 <= r.numer() <= r.denom(),
    {
        bounded_ratio_of(self.micro_joules, whole.micro_joules)
    }

    /// How long this energy lasts when drained (or is reached when
    /// supplied) at the given positive rate.
    pub fn duration_at(&self, rate: &Power) -> (r: Time)
        requires
            rate.value() > 0,
        ensures
            r.value() == self.value() / rate.value(),
    {
        Time { seconds: self.micro_joules / rate.micro_watts }
    }
}

/// Power, canonically in microwatts.
#[derive(Clone, Copy, Debug, PartialEq, Eq, Structural)]
pub struct Power {
    micro_watts: u64,
}

impl Power {
    /// Canonical magnitude in microwatts.
    pub closed spec fn value(self) -> int {
        self.micro_watts as int
    }

    pub fn from_watts(raw: u64) -> (r: Power)
        requires
            raw * 1_000_000 <= u64::MAX,
        ensures
            r.value() == raw * 1_000_000,
    {
        Power { micro_watts: raw * 1_000_000 }
    }

    pub fn from_milliwatts(raw: u64) -> (r: Power)
        requires
            raw * 1_000 <= u64::MAX,
        ensures
            r.value() == raw * 1_000,
    {
        Power { micro_watts: raw * 1_000 }
    }

    pub fn from_microwatts(raw: u64) -> (r: Power)
        ensures
            r.value() == raw,
    {
        Power { micro_watts: raw }
    }

    pub fn as_watts(&self) -> (r: u64)
        ensures
            r == self.value() / 1_000_000,
    {
        self.micro_watts / 1_000_000
    }

    pub fn as_milliwatts(&self) -> (r: u64)
        ensures
            r == self.value() / 1_000,
    {
        self.micro_watts / 1_000
    }

    pub fn as_microwatts(&self) -> (r: u64)
        ensures
            r == self.value(),
    {
        self.micro_watts
    }

    pub fn is_zero(&self) -> (r: bool)
        ensures
            r == (self.value() == 0),
            self.value() >= 0,
    {
        self.micro_watts == 0
    }
}

/// Time, canonically in seconds.
#[derive(Clone, Copy, Debug, PartialEq, Eq, Structural)]
pub struct Time {
    seconds: u64,
}

impl Time {
    /// Canonical magnitude in seconds.
    pub closed spec fn value(self) -> int {
        self.seconds as int
    }

    pub fn from_hours(raw: u64) -> (r: Time)
        requires
            raw * 3_600 <= u64::MAX,
        ensures
            r.value() == raw * 3_600,
    {
        Time { seconds: raw * 3_600 }
    }

    pub fn from_minutes(raw: u64) -> (r: Time)
        requires
            raw * 60 <= u64::MAX,
        ensures
            r.value() == raw * 60,
    {
        Time { seconds: raw * 60 }
    }

    pub fn from_seconds(raw: u64) -> (r: Time)
        ensures
            r.value() == raw,
    {
        Time { seconds: raw }
    }

    pub fn as_hours(&self) -> (r: u64)
        ensures
            r == self.value() / 3_600,
    {
        self.seconds / 3_600
    }

    pub fn as_minutes(&self) -> (r: u64)
        ensures
            r == self.value() / 60,
    {
        self.seconds / 60
    }

    pub fn as_seconds(&self) -> (r: u64)
        ensures
            r == self.value(),
    {
        self.seconds
    }
}

/// Thermodynamic temperature, canonically in millikelvin.  The canonical
/// magnitude is signed so that raw readings below the absolute zero of a
/// source scale are still representable as reported.
#[derive(Clone, Copy, Debug, PartialEq, Eq, Structural)]
pub struct ThermodynamicTemperature {
    milli_kelvin: i64,
}

impl ThermodynamicTemperature {
    /// Canonical magnitude in millikelvin.
    pub closed spec fn value(self) -> int {
        self.milli_kelvin as int
    }

    pub fn from_kelvin(raw: i64) -> (r: ThermodynamicTemperature)
        requires
            i64::MIN <= raw * 1_000 <= i64::MAX,
        ensures
            r.value() == raw * 1_000,
    {
        ThermodynamicTemperature { milli_kelvin: raw * 1_000 }
    }

    pub fn from_millikelvin(raw: i64) -> (r: ThermodynamicTemperature)
        ensures
            r.value() == raw,
    {
        ThermodynamicTemperature { milli_kelvin: raw }
    }

    pub fn from_decikelvin(raw: u64) -> (r: ThermodynamicTemperature)
        requires
            raw * 100 <= i64::MAX,
        ensures
            r.value() == raw * 100,
    {
        ThermodynamicTemperature { milli_kelvin: (raw as i64) * 100 }
    }

    /// As [`Self::from_decikelvin`], reporting a magnitude beyond the
    /// canonical range as `None`.
    pub fn checked_from_decikelvin(raw: u64) -> (r: Option<ThermodynamicTemperature>)
        ensures
            match r {
                Some(t) => raw * 100 <= i64::MAX && t.value() == raw * 100,
                None => raw * 100 > i64::MAX,
            },
    {
        if raw <= (i64::MAX as u64) / 100 {
            proof {
                assert(raw * 100 <= ((i64::MAX as u64) / 100) * 100) by (nonlinear_arith)
                    requires
                        raw <= (i64::MAX as u64) / 100,
                ;
            }
            Some(ThermodynamicTemperature { milli_kelvin: (raw as i64) * 100 })
        } else {
            None
        }
    }

    /// Construction from hundredths of a degree Celsius.
    pub fn from_centidegrees_celsius(raw: i64) -> (r: ThermodynamicTemperature)
        requires
            i64::MIN <= raw * 10 + 273_150 <= i64::MAX,
            i64::MIN <= raw * 10 <= i64::MAX,
        ensures
            r.value() == raw * 10 + 273_150,
    {
        ThermodynamicTemperature { milli_kelvin: raw * 10 + 273_150 }
    }

    pub fn as_millikelvin(&self) -> (r: i64)
        ensures
            r == self.value(),
    {
        self.milli_kelvin
    }

    pub fn as_kelvin(&self) -> (r: i64)
        ensures
            r == spec_scale_down(self.value(), 1_000),
    {
        if self.milli_kelvin >= 0 {
            self.milli_kelvin / 1_000
        } else {
            let below: i128 = -(self.milli_kelvin as i128);
            -((below / 1_000) as i64)
        }
    }

    pub fn as_decikelvin(&self) -> (r: i64)
        ensures
            r == spec_scale_down(self.value(), 100),
    {
        if self.milli_kelvin >= 0 {
            self.milli_kelvin / 100
        } else {
            let below: i128 = -(self.milli_kelvin as i128);
            -((below / 100) as i64)
        }
    }

    /// Conversion back to hundredths of a degree Celsius, rounding toward
    /// zero degrees.
    pub fn as_centidegrees_celsius(&self) -> (r: i64)
        ensures
            r == spec_centi_celsius(self.value()),
    {
        if self.milli_kelvin >= 273_150 {
            (self.milli_kelvin - 273_150) / 10
        } else {
            let below: i128 = 273_150i128 - (self.milli_kelvin as i128);
            -((below / 10) as i64)
        }
    }
}

/// A signed magnitude scaled down to a coarser granule, rounding toward
/// zero.
pub open spec fn spec_scale_down(n: int, k: int) -> int {
    if n >= 0 {
        n / k
    } else {
        -((-n) / k)
    }
}

/// Hundredths of a degree Celsius for a canonical millikelvin magnitude,
/// rounded toward zero degrees Celsius.
pub open spec fn spec_centi_celsius(milli_kelvin: int) -> int {
    if milli_kelvin >= 273_150 {
        (milli_kelvin - 273_150) / 10
    } else {
        -((273_150 - milli_kelvin) / 10)
    }
}

/// A dimensionless fraction kept as an exact pair of numerator and
/// denominator; the denominator is always at least one.
#[derive(Clone, Copy, Debug)]
pub struct Ratio {
    numerator: u64,
    denominator: u64,
}

impl Ratio {
    #[verifier::type_invariant]
    spec fn denominator_positive(self) -> bool {
        self.denominator >= 1
    }

    /// Numerator of the exact fraction.
    pub closed spec fn numer(self) -> int {
        self.numerator as int
    }

    /// Denominator of the exact fraction.
    pub closed spec fn denom(self) -> int {
        self.denominator as int
    }

    pub fn new(numerator: u64, denominator: u64) -> (r: Ratio)
        requires
            denominator >= 1,
        ensures
            r.numer() == numerator,
            r.denom() == denominator,
    {
        Ratio { numerator, denominator }
    }

    pub fn zero() -> (r: Ratio)
        ensures
            r.numer() == 0,
            r.denom() == 1,
    {
        Ratio { numerator: 0, denominator: 1 }
    }

    pub fn one() -> (r: Ratio)
        ensures
            r.numer() == 1,
            r.denom() == 1,
    {
        Ratio { numerator: 1, denominator: 1 }
    }

    pub fn from_percent(raw: u64) -> (r: Ratio)
        ensures
            r.numer() == raw,
            r.denom() == 100,
    {
        Ratio { numerator: raw, denominator: 100 }
    }

    /// The same fraction clamped into the unit interval: a numerator
    /// above the denominator is cut down to it.
    pub fn into_bounded(self) -> (r: Ratio)
        ensures
            r.denom() == self.denom(),
            r.numer() == if self.numer() <= self.denom() {
                self.numer()
            } else {
                self.denom()
            },
    {
        proof {
            use_type_invariant(&self);
        }
        if self.numerator <= self.denominator {
            self
        } else {
            Ratio { numerator: self.denominator, denominator: self.denominator }
        }
    }

    pub fn numerator(&self) -> (r: u64)
        ensures
            r == self.numer(),
    {
        self.numerator
    }

    pub fn denominator(&self) -> (r: u64)
        ensures
            r == self.denom(),
    {
        self.denominator
    }

    pub fn is_zero(&self) -> (r: bool)
        ensures
            r == (self.numer() == 0),
    {
        self.numerator == 0
    }

    pub fn is_one(&self) -> (r: bool)
        ensures
            r == (self.numer() == self.denom()),
    {
        self.numerator == self.denominator
    }

    /// The fraction expressed in percent, rounded down.
    pub fn as_percent(&self) -> (r: u64)
        requires
            self.numer() * 100 / self.denom() <= u64::MAX,
        ensures
            r == self.numer() * 100 / self.denom(),
    {
        proof {
            use_type_invariant(self);
        }
        let wide: u128 = (self.numerator as u128) * 100;
        (wide / (self.denominator as u128)) as u64
    }
}

impl PartialEq for Ratio {
    /// Two ratios are equal when they denote the same rational value.
    fn eq(&self, other: &Ratio) -> (r: bool) {
        let left: u128 = mul_u64_wide(self.numerator, other.denominator);
        let right: u128 = mul_u64_wide(other.numerator, self.denominator);
        left == right
    }
}

impl vstd::std_specs::cmp::PartialEqSpecImpl for Ratio {
    open spec fn obeys_eq_spec() -> bool {
        true
    }

    open spec fn eq_spec(&self, other: &Ratio) -> bool {
        self.numer() * other.denom() == other.numer() * self.denom()
    }
}

/// The clamped fraction `part / whole` as a numerator-denominator pair in
/// the unit interval.  A zero `whole` denotes an undefined fraction: it
/// clamps to one when any quantity is present and to zero otherwise.
pub open spec fn bounded_pair(part: int, whole: int) -> (int, int) {
    if whole <= 0 {
        if part <= 0 {
            (0int, 1int)
        } else {
            (1int, 1int)
        }
    } else if part >= whole {
        (whole, whole)
    } else if part <= 0 {
        (0int, whole)
    } else {
        (part, whole)
    }
}

/// Equal positive magnitudes give the clamped fraction the exact
/// value one.
pub proof fn lemma_equal_magnitudes_ratio_is_one(part: int, whole: int)
    requires
        part == whole,
        whole > 0,
    ensures
        ({
            let (n, d) = bounded_pair(part, whole);
            n == d && d >= 1
        }),
{
}

/// The clamped fraction of two raw canonical magnitudes.
fn bounded_ratio_of(part: u64, whole: u64) -> (r: Ratio)
    ensures
        (r.numer(), r.denom()) == bounded_pair(part as int, whole as int),
        0 <= r.numer() <= r.denom(),
{
    if whole == 0 {
        if part == 0 {
            Ratio { numerator: 0, denominator: 1 }
        } else {
            Ratio { numerator: 1, denominator: 1 }
        }
    } else if part >= whole {
        Ratio { numerator: whole, denominator: whole }
    } else {
        Ratio { numerator: part, denominator: whole }
    }
}

impl Default for ElectricPotential {
    fn default() -> (r: ElectricPotential)
        ensures
            r.value() == 0,
    {
        ElectricPotential { micro_volts: 0 }
    }
}

impl Default for ElectricCurrent {
    fn default() -> (r: ElectricCurrent)
        ensures
            r.value() == 0,
    {
        ElectricCurrent { micro_amperes: 0 }
    }
}

impl Default for ElectricCharge {
    fn default() -> (r: ElectricCharge)
        ensures
            r.value() == 0,
    {
        ElectricCharge { micro_coulombs: 0 }
    }
}

impl Default for Energy {
    fn default() -> (r: Energy)
        ensures
            r.value() == 0,
    {
        Energy { micro_joules: 0 }
    }
}

impl Default for Power {
    fn default() -> (r: Power)
        ensures
            r.value() == 0,
    {
        Power { micro_watts: 0 }
    }
}

impl Default for Time {
    fn default() -> (r: Time)
        ensures
            r.value() == 0,
    {
        Time { seconds: 0 }
    }
}

impl Default for ThermodynamicTemperature {
    fn default() -> (r: ThermodynamicTemperature)
        ensures
            r.value() == 0,
    {
        ThermodynamicTemperature { milli_kelvin: 0 }
    }
}

impl Default for Ratio {
    fn default() -> (r: Ratio)
        ensures
            r.numer() == 0,
            r.denom() == 1,
    {
        Ratio { numerator: 0, denominator: 1 }
    }
}

/// The absolute value of a signed magnitude.
pub open spec fn spec_abs(x: int) -> int {
    if x >= 0 {
        x
    } else {
        -x
    }
}

/// The magnitude of a signed raw reading, exact even for the smallest
/// representable value.
pub fn abs_magnitude(x: i64) -> (r: u64)
    ensures
        r == spec_abs(x as int),
{
    if x >= 0 {
        x as u64
    } else {
        (-(x as i128)) as u64
    }
}

/// Full-width product of two canonical 64-bit magnitudes.
fn mul_u64_wide(a: u64, b: u64) -> (r: u128)
    ensures
        r == a * b,
{
    proof {
        assert((a as int) * (b as int) <= (u64::MAX as int) * (u64::MAX as int))
            by (nonlinear_arith)
            requires
                a <= u64::MAX,
                b <= u64::MAX,
        ;
    }
    (a as u128) * (b as u128)
}

/// Constructing a quantity from a source sub-unit and reading it back in
/// the same sub-unit returns the original magnitude exactly, for every
/// magnitude whose canonical form is representable.
pub proof fn lemma_potential_round_trip(raw: u64, p_v: ElectricPotential, p_mv: ElectricPotential, p_uv: ElectricPotential)
    requires
        raw * 1_000_000 <= u64::MAX,
        p_v.value() == raw * 1_000_000,
        p_mv.value() == raw * 1_000,
        p_uv.value() == raw,
    ensures
        p_v.value() / 1_000_000 == raw,
        p_mv.value() / 1_000 == raw,
        p_uv.value() == raw,
{
}

/// Round trips for every supported charge sub-unit.
pub proof fn lemma_charge_round_trip(raw: u64, c_ah: ElectricCharge, c_mah: ElectricCharge, c_uah: ElectricCharge)
    requires
        raw * 3_600_000_000 <= u64::MAX,
        c_ah.value() == raw * 3_600_000_000,
        c_mah.value() == raw * 3_600_000,
        c_uah.value() == raw * 3_600,
    ensures
        c_ah.value() / 3_600_000_000 == raw,
        c_mah.value() / 3_600_000 == raw,
        c_uah.value() / 3_600 == raw,
{
}

/// Round trips for every supported current sub-unit.
pub proof fn lemma_current_round_trip(raw: u64, c_a: ElectricCurrent, c_ma: ElectricCurrent, c_ua: ElectricCurrent)
    requires
        raw * 1_000_000 <= u64::MAX,
        c_a.value() == raw * 1_000_000,
        c_ma.value() == raw * 1_000,
        c_ua.value() == raw,
    ensures
        c_a.value() / 1_000_000 == raw,
        c_ma.value() / 1_000 == raw,
        c_ua.value() == raw,
{
}

/// Round trips for every supported energy sub-unit.
pub proof fn lemma_energy_round_trip(raw: u64, e_wh: Energy, e_mwh: Energy, e_uwh: Energy, e_j: Energy)
    requires
        raw * 3_600_000_000 <= u64::MAX,
        e_wh.value() == raw * 3_600_000_000,
        e_mwh.value() == raw * 3_600_000,
        e_uwh.value() == raw * 3_600,
        e_j.value() == raw * 1_000_000,
    ensures
        e_wh.value() / 3_600_000_000 == raw,
        e_mwh.value() / 3_600_000 == raw,
        e_uwh.value() / 3_600 == raw,
        e_j.value() / 1_000_000 == raw,
{
}

/// Round trips for every supported power sub-unit.
pub proof fn lemma_power_round_trip(raw: u64, p_w: Power, p_mw: Power, p_uw: Power)
    requires
        raw * 1_000_000 <= u64::MAX,
        p_w.value() == raw * 1_000_000,
        p_mw.value() == raw * 1_000,
        p_uw.value() == raw,
    ensures
        p_w.value() / 1_000_000 == raw,
        p_mw.value() / 1_000 == raw,
        p_uw.value() == raw,
{
}

/// Round trips for every supported time sub-unit.
pub proof fn lemma_time_round_trip(raw: u64, t_h: Time, t_m: Time, t_s: Time)
    requires
        raw * 3_600 <= u64::MAX,
        t_h.value() == raw * 3_600,
        t_m.value() == raw * 60,
        t_s.value() == raw,
    ensures
        t_h.value() / 3_600 == raw,
        t_m.value() / 60 == raw,
        t_s.value() == raw,
{
}

/// Round trips for every supported temperature sub-unit, including the
/// signed Celsius scale.
pub proof fn lemma_temperature_round_trip(raw_dk: u64, raw_cc: i64, t_dk: ThermodynamicTemperature, t_cc: ThermodynamicTemperature)
    requires
        raw_dk * 100 <= i64::MAX,
        i64::MIN <= raw_cc * 10 <= i64::MAX,
        i64::MIN <= raw_cc * 10 + 273_150 <= i64::MAX,
        t_dk.value() == raw_dk * 100,
        t_cc.value() == raw_cc * 10 + 273_150,
    ensures
        spec_scale_down(t_dk.value(), 100) == raw_dk,
        spec_centi_celsius(t_cc.value()) == raw_cc,
{
    if t_cc.value() >= 273_150 {
        assert((raw_cc * 10) / 10 == raw_cc) by (nonlinear_arith);
    } else {
        assert(((-raw_cc) * 10) / 10 == -raw_cc) by (nonlinear_arith);
        assert(273_150 - (raw_cc * 10 + 273_150) == (-raw_cc) * 10);
    }
}

/// Round trip for the percent sub-unit of a ratio.
pub proof fn lemma_percent_round_trip(raw: u64, r: Ratio)
    requires
        r.numer() == raw,
        r.denom() == 100,
    ensures
        r.numer() * 100 / r.denom() == raw,
{
    assert(raw * 100 / 100 == raw) by (nonlinear_arith);
}


impl PartialOrd for ElectricPotential {
    /// Ordering compares canonical magnitudes.
    fn partial_cmp(&self, other: &ElectricPotential) -> (r: Option<Ordering>) {
        if self.micro_volts < other.micro_volts {
            Some(Ordering::Less)
        } else if self.micro_volts == other.micro_volts {
            Some(Ordering::Equal)
        } else {
            Some(Ordering::Greater)
        }
    }
}

impl vstd::std_specs::cmp::PartialOrdSpecImpl for ElectricPotential {
    open spec fn obeys_partial_cmp_spec() -> bool {
        true
    }

    open spec fn partial_cmp_spec(&self, other: &ElectricPotential) -> Option<Ordering> {
        if self.value() < other.value() {
            Some(Ordering::Less)
        } else if self.value() == other.value() {
            Some(Ordering::Equal)
        } else {
            Some(Ordering::Greater)
        }
    }
}

impl PartialOrd for ElectricCurrent {
    /// Ordering compares canonical magnitudes.
    fn partial_cmp(&self, other: &ElectricCurrent) -> (r: Option<Ordering>) {
        if self.micro_amperes < other.micro_amperes {
            Some(Ordering::Less)
        } else if self.micro_amperes == other.micro_amperes {
            Some(Ordering::Equal)
        } else {
            Some(Ordering::Greater)
        }
    }
}

impl vstd::std_specs::cmp::PartialOrdSpecImpl for ElectricCurrent {
    open spec fn obeys_partial_cmp_spec() -> bool {
        true
    }

    open spec fn partial_cmp_spec(&self, other: &ElectricCurrent) -> Option<Ordering> {
        if self.value() < other.value() {
            Some(Ordering::Less)
        } else if self.value() == other.value() {
            Some(Ordering::Equal)
        } else {
            Some(Ordering::Greater)
        }
    }
}

impl PartialOrd for ElectricCharge {
    /// Ordering compares canonical magnitudes.
    fn partial_cmp(&self, other: &ElectricCharge) -> (r: Option<Ordering>) {
        if self.micro_coulombs < other.micro_coulombs {
            Some(Ordering::Less)
        } else if self.micro_coulombs == other.micro_coulombs {
            Some(Ordering::Equal)
        } else {
            Some(Ordering::Greater)
        }
    }
}

impl vstd::std_specs::cmp::PartialOrdSpecImpl for ElectricCharge {
    open spec fn obeys_partial_cmp_spec() -> bool {
        true
    }

    open spec fn partial_cmp_spec(&self, other: &ElectricCharge) -> Option<Ordering> {
        if self.value() < other.value() {
            Some(Ordering::Less)
        } else if self.value() == other.value() {
            Some(Ordering::Equal)
        } else {
            Some(Ordering::Greater)
        }
    }
}

impl PartialOrd for Energy {
    /// Ordering compares canonical magnitudes.
    fn partial_cmp(&self, other: &Energy) -> (r: Option<Ordering>) {
        if self.micro_joules < other.micro_joules {
            Some(Ordering::Less)
        } else if self.micro_joules == other.micro_joules {
            Some(Ordering::Equal)
        } else {
            Some(Ordering::Greater)
        }
    }
}

impl vstd::std_specs::cmp::PartialOrdSpecImpl for Energy {
    open spec fn obeys_partial_cmp_spec() -> bool {
        true
    }

    open spec fn partial_cmp_spec(&self, other: &Energy) -> Option<Ordering> {
        if self.value() < other.value() {
            Some(Ordering::Less)
        } else if self.value() == other.value() {
            Some(Ordering::Equal)
        } else {
            Some(Ordering::Greater)
        }
    }
}

impl PartialOrd for Power {
    /// Ordering compares canonical magnitudes.
    fn partial_cmp(&self, other: &Power) -> (r: Option<Ordering>) {
        if self.micro_watts < other.micro_watts {
            Some(Ordering::Less)
        } else if self.micro_watts == other.micro_watts {
            Some(Ordering::Equal)
        } else {
            Some(Ordering::Greater)
        }
    }
}

impl vstd::std_specs::cmp::PartialOrdSpecImpl for Power {
    open spec fn obeys_partial_cmp_spec() -> bool {
        true
    }

    open spec fn partial_cmp_spec(&self, other: &Power) -> Option<Ordering> {
        if self.value() < other.value() {
            Some(Ordering::Less)
        } else if self.value() == other.value() {
            Some(Ordering::Equal)
        } else {
            Some(Ordering::Greater)
        }
    }
}

impl PartialOrd for Time {
    /// Ordering compares canonical magnitudes.
    fn partial_cmp(&self, other: &Time) -> (r: Option<Ordering>) {
        if self.seconds < other.seconds {
            Some(Ordering::Less)
        } else if self.seconds == other.seconds {
            Some(Ordering::Equal)
        } else {
            Some(Ordering::Greater)
        }
    }
}

impl vstd::std_specs::cmp::PartialOrdSpecImpl for Time {
    open spec fn obeys_partial_cmp_spec() -> bool {
        true
    }

    open spec fn partial_cmp_spec(&self, other: &Time) -> Option<Ordering> {
        if self.value() < other.value() {
            Some(Ordering::Less)
        } else if self.value() == other.value() {
            Some(Ordering::Equal)
        } else {
            Some(Ordering::Greater)
        }
    }
}

impl PartialOrd for ThermodynamicTemperature {
    /// Ordering compares canonical magnitudes.
    fn partial_cmp(&self, other: &ThermodynamicTemperature) -> (r: Option<Ordering>) {
        if self.milli_kelvin < other.milli_kelvin {
            Some(Ordering::Less)
        } else if self.milli_kelvin == other.milli_kelvin {
            Some(Ordering::Equal)
        } else {
            Some(Ordering::Greater)
        }
    }
}

impl vstd::std_specs::cmp::PartialOrdSpecImpl for ThermodynamicTemperature {
    open spec fn obeys_partial_cmp_spec() -> bool {
        true
    }

    open spec fn partial_cmp_spec(&self, other: &ThermodynamicTemperature) -> Option<Ordering> {
        if self.value() < other.value() {
            Some(Ordering::Less)
        } else if self.value() == other.value() {
            Some(Ordering::Equal)
        } else {
            Some(Ordering::Greater)
        }
    }
}

impl PartialOrd for Ratio {
    /// Ordering compares the rational values the pairs denote.
    fn partial_cmp(&self, other: &Ratio) -> (r: Option<Ordering>) {
        let left: u128 = mul_u64_wide(self.numerator, other.denominator);
        let right: u128 = mul_u64_wide(other.numerator, self.denominator);
        if left < right {
            Some(Ordering::Less)
        } else if left == right {
            Some(Ordering::Equal)
        } else {
            Some(Ordering::Greater)
        }
    }
}

impl vstd::std_specs::cmp::PartialOrdSpecImpl for Ratio {
    open spec fn obeys_partial_cmp_spec() -> bool {
        true
    }

    open spec fn partial_cmp_spec(&self, other: &Ratio) -> Option<Ordering> {
        if self.numer() * other.denom() < other.numer() * self.denom() {
            Some(Ordering::Less)
        } else if self.numer() * other.denom() == other.numer() * self.denom() {
            Some(Ordering::Equal)
        } else {
            Some(Ordering::Greater)
        }
    }
}

} // verus!
