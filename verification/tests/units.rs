//! Unit-system behaviour: exact round trips through every supported
//! sub-unit, dimensional arithmetic, and the bounded ratio.

use battery::units::{
    abs_magnitude, ElectricCharge, ElectricCurrent, ElectricPotential, Energy, Power, Ratio,
    ThermodynamicTemperature, Time,
};

#[test]
fn potential_round_trips() {
    assert_eq!(ElectricPotential::from_volts(12).as_volts(), 12);
    assert_eq!(ElectricPotential::from_millivolts(11_400).as_millivolts(), 11_400);
    assert_eq!(ElectricPotential::from_microvolts(11_400_000).as_microvolts(), 11_400_000);
    assert_eq!(ElectricPotential::from_millivolts(11_400).as_volts(), 11);
}

#[test]
fn current_round_trips() {
    assert_eq!(ElectricCurrent::from_amperes(3).as_amperes(), 3);
    assert_eq!(ElectricCurrent::from_milliamperes(2_150).as_milliamperes(), 2_150);
    assert_eq!(ElectricCurrent::from_microamperes(987_654).as_microamperes(), 987_654);
}

#[test]
fn charge_round_trips() {
    assert_eq!(ElectricCharge::from_ampere_hours(5).as_ampere_hours(), 5);
    assert_eq!(ElectricCharge::from_milliampere_hours(5_200).as_milliampere_hours(), 5_200);
    assert_eq!(ElectricCharge::from_microampere_hours(123_456).as_microampere_hours(), 123_456);
    // One milliampere hour is 3.6 coulombs.
    assert_eq!(ElectricCharge::from_milliampere_hours(1_000).as_microcoulombs(), 3_600_000_000);
}

#[test]
fn energy_round_trips() {
    assert_eq!(Energy::from_joules(42).as_joules(), 42);
    assert_eq!(Energy::from_watt_hours(57).as_watt_hours(), 57);
    assert_eq!(Energy::from_milliwatt_hours(8_000).as_milliwatt_hours(), 8_000);
    assert_eq!(Energy::from_microwatt_hours(8_000_000).as_microwatt_hours(), 8_000_000);
    // One watt hour is 3600 joules.
    assert_eq!(Energy::from_watt_hours(1).as_joules(), 3_600);
}

#[test]
fn power_round_trips() {
    assert_eq!(Power::from_watts(65).as_watts(), 65);
    assert_eq!(Power::from_milliwatts(15_000).as_milliwatts(), 15_000);
    assert_eq!(Power::from_microwatts(250).as_microwatts(), 250);
}

#[test]
fn time_round_trips() {
    assert_eq!(Time::from_hours(2).as_hours(), 2);
    assert_eq!(Time::from_minutes(90).as_minutes(), 90);
    assert_eq!(Time::from_seconds(5_400).as_seconds(), 5_400);
    assert_eq!(Time::from_minutes(90).as_seconds(), 5_400);
}

#[test]
fn temperature_round_trips() {
    assert_eq!(ThermodynamicTemperature::from_decikelvin(2_982).as_decikelvin(), 2_982);
    assert_eq!(ThermodynamicTemperature::from_kelvin(298).as_kelvin(), 298);
    assert_eq!(
        ThermodynamicTemperature::from_centidegrees_celsius(2_500).as_centidegrees_celsius(),
        2_500,
    );
    // Negative Celsius readings survive the round trip too.
    assert_eq!(
        ThermodynamicTemperature::from_centidegrees_celsius(-1_050).as_centidegrees_celsius(),
        -1_050,
    );
    // 25.00 degrees Celsius is 298.15 kelvin.
    assert_eq!(
        ThermodynamicTemperature::from_centidegrees_celsius(2_500).as_millikelvin(),
        298_150,
    );
    // A magnitude below the zero of the canonical scale scales toward
    // zero rather than away from it.
    assert_eq!(ThermodynamicTemperature::from_millikelvin(-250).as_decikelvin(), -2);
    assert_eq!(ThermodynamicTemperature::from_millikelvin(-1_999).as_kelvin(), -1);
}

#[test]
fn percent_round_trips() {
    let r = Ratio::from_percent(64);
    assert_eq!(r.as_percent(), 64);
    assert_eq!(r.numerator(), 64);
    assert_eq!(r.denominator(), 100);
}

#[test]
fn charge_times_potential_is_energy() {
    // 5000 mAh at 11.5 V: 5 Ah * 3600 * 11.5 = 207000 J.
    let charge = ElectricCharge::from_milliampere_hours(5_000);
    let potential = ElectricPotential::from_millivolts(11_500);
    let energy = charge.energy_at(&potential);
    assert_eq!(energy.as_joules(), 207_000);
    assert_eq!(energy.as_milliwatt_hours(), 57_500);
    let checked = charge.checked_energy_at(&potential).unwrap();
    assert_eq!(checked.as_joules(), 207_000);
}

#[test]
fn oversized_product_is_rejected() {
    let charge = ElectricCharge::from_milliampere_hours(4_000_000_000);
    let potential = ElectricPotential::from_volts(4_000_000_000);
    assert!(charge.checked_energy_at(&potential).is_none());
    let current = ElectricCurrent::from_milliamperes(4_000_000_000);
    assert!(current.checked_power_at(&potential).is_none());
    assert!(ElectricCharge::checked_from_microampere_hours(u64::MAX).is_none());
    assert!(Energy::checked_from_microwatt_hours(u64::MAX).is_none());
    assert!(ThermodynamicTemperature::checked_from_decikelvin(u64::MAX).is_none());
}

#[test]
fn current_times_potential_is_power() {
    // 2 A at 11.5 V draws 23 W.
    let current = ElectricCurrent::from_milliamperes(2_000);
    let potential = ElectricPotential::from_millivolts(11_500);
    let power = current.power_at(&potential);
    assert_eq!(power.as_milliwatts(), 23_000);
}

#[test]
fn energy_over_power_is_time() {
    // 20 Wh drained at 10 W lasts two hours.
    let energy = Energy::from_watt_hours(20);
    let rate = Power::from_watts(10);
    assert_eq!(energy.duration_at(&rate).as_hours(), 2);
}

#[test]
fn surplus_saturates_at_zero() {
    let a = Energy::from_milliwatt_hours(8_000);
    let b = Energy::from_milliwatt_hours(5_000);
    assert_eq!(a.surplus_over(&b).as_milliwatt_hours(), 3_000);
    assert_eq!(b.surplus_over(&a).as_milliwatt_hours(), 0);
    assert!(a.at_least(&b));
    assert!(!b.at_least(&a));
}

#[test]
fn bounded_ratio_clamps() {
    let part = Energy::from_milliwatt_hours(9_000);
    let whole = Energy::from_milliwatt_hours(8_000);
    let clamped = part.bounded_ratio(&whole);
    assert!(clamped.is_one());
    let proper = whole.bounded_ratio(&part);
    assert!(!proper.is_one());
    assert!(proper.numerator() <= proper.denominator());
    // An undefined fraction clamps to one when any energy is present
    // and to zero otherwise.
    let zero = Energy::from_milliwatt_hours(0);
    assert!(part.bounded_ratio(&zero).is_one());
    assert!(zero.bounded_ratio(&zero).is_zero());
}

#[test]
fn ratio_equality_is_rational() {
    assert_eq!(Ratio::new(1, 2), Ratio::new(2, 4));
    assert_ne!(Ratio::new(1, 2), Ratio::new(2, 3));
    assert_eq!(Ratio::one(), Ratio::new(7, 7));
    assert_eq!(Ratio::zero(), Ratio::new(0, 9));
    let clamped = Ratio::new(9, 4).into_bounded();
    assert_eq!(clamped, Ratio::one());
    assert_eq!(clamped.denominator(), 4);
}

#[test]
fn ordering_compares_canonical_magnitudes() {
    assert!(Energy::from_milliwatt_hours(1) < Energy::from_milliwatt_hours(2));
    // One watt hour and 1000 milliwatt hours are the same magnitude.
    assert!(Energy::from_watt_hours(1) <= Energy::from_milliwatt_hours(1_000));
    assert!(Energy::from_watt_hours(1) >= Energy::from_milliwatt_hours(1_000));
    assert!(ElectricPotential::from_volts(12) > ElectricPotential::from_millivolts(11_900));
    assert!(ElectricCurrent::from_amperes(1) > ElectricCurrent::from_milliamperes(999));
    assert!(ElectricCharge::from_ampere_hours(1) > ElectricCharge::from_milliampere_hours(999));
    assert!(Power::from_watts(1) < Power::from_milliwatts(1_001));
    assert!(Time::from_minutes(1) < Time::from_seconds(61));
    assert!(
        ThermodynamicTemperature::from_centidegrees_celsius(-100)
            < ThermodynamicTemperature::from_centidegrees_celsius(0)
    );
    assert!(Ratio::new(1, 3) < Ratio::new(1, 2));
    assert!(Ratio::new(2, 4) <= Ratio::new(1, 2));
}

#[test]
fn magnitude_of_extreme_reading() {
    assert_eq!(abs_magnitude(-2_000), 2_000);
    assert_eq!(abs_magnitude(2_000), 2_000);
    assert_eq!(abs_magnitude(i64::MIN), 9_223_372_036_854_775_808);
}
