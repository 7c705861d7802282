//! The fermentation itself: from sugar, climate, temperature and the progress
//! of the yeast to alcohol, residual sugar and the descriptors of the wine.
//!
//! All quantities are exact fractions. Sugar is counted in grams per litre,
//! alcohol in percent by volume, temperature in thousandths of a degree
//! Celsius, and the progress of the yeast in millionths.

use crate::climate::{Acidity, Climate};
use crate::descriptors::{AlcoholLevel, Body, Sweetness};
use crate::ratio::{Ratio, Rational};
use vstd::prelude::*;

verus! {

/// Hundredths of a gram of sugar per litre that ferment to one percent of
/// alcohol by volume: 16.83 g/L.
pub const SUGAR_PER_ABV_HUNDREDTHS: u64 = 1683;

/// The highest alcohol by volume, in percent, that the yeast survives.
pub const ABV_CAP: u64 = 15;

/// The parts that the progress of the yeast is counted in.
pub const FRACTION_SCALE: u64 = 1_000_000;

/// The coldest temperature at which the yeast works, in thousandths of a
/// degree Celsius.
pub const COLDEST_MILLIDEGREES: i64 = 5_000;

/// The warmest temperature at which the yeast works, in thousandths of a
/// degree Celsius.
pub const WARMEST_MILLIDEGREES: i64 = 40_000;

/// Why a fermentation gave no wine.
#[derive(Clone, Copy, Debug, PartialEq, Eq, Structural)]
pub enum Failure {
    /// The temperature lies below 5 °C or above 40 °C.
    TemperatureOutOfRange,
}

/// What a fermentation gave.
#[derive(Clone, Copy, Debug, PartialEq, Eq)]
pub struct Metrics {
    /// The sugar of the must after the climate's adjustment, in g/L.
    pub effective_sugar: Ratio,
    /// The alcohol by volume that all of the sugar would give, in percent.
    pub potential_abv: Ratio,
    /// The alcohol by volume of the wine, in percent.
    pub actual_abv: Ratio,
    /// The part of the sugar that counts as fermented, between 0 and 1.
    pub fraction_fermented: Ratio,
    /// The sugar left in the wine, in g/L.
    pub residual_sugar: Ratio,
    pub sweetness: Sweetness,
    pub body: Body,
    pub acidity: Acidity,
    pub alcohol_level: AlcoholLevel,
}

/// The mathematical model of [`Metrics`].
pub struct MetricsModel {
    pub effective_sugar: Rational,
    pub potential_abv: Rational,
    pub actual_abv: Rational,
    pub fraction_fermented: Rational,
    pub residual_sugar: Rational,
    pub sweetness: Sweetness,
    pub body: Body,
    pub acidity: Acidity,
    pub alcohol_level: AlcoholLevel,
}

impl View for Metrics {
    type V = MetricsModel;

    open spec fn view(&self) -> MetricsModel {
        MetricsModel {
            effective_sugar: self.effective_sugar@,
            potential_abv: self.potential_abv@,
            actual_abv: self.actual_abv@,
            fraction_fermented: self.fraction_fermented@,
            residual_sugar: self.residual_sugar@,
            sweetness: self.sweetness,
            body: self.body,
            acidity: self.acidity,
            alcohol_level: self.alcohol_level,
        }
    }
}

impl MetricsModel {
    /// Whether every quantity is a valid fraction.
    pub open spec fn is_valid(self) -> bool {
        &&& self.effective_sugar.is_valid()
        &&& self.potential_abv.is_valid()
        &&& self.actual_abv.is_valid()
        &&& self.fraction_fermented.is_valid()
        &&& self.residual_sugar.is_valid()
    }
}

impl Failure {
    /// What a failure reads like.
    pub open spec fn text(self) -> Seq<char> {
        "Fermentation failed: temperature out of range for yeast activity."@
    }

    /// What this failure reads like.
    pub fn message(self) -> (m: &'static str)
        ensures
            m@ == self.text(),
    {
        "Fermentation failed: temperature out of range for yeast activity."
    }
}

/// Whether the yeast works at a temperature: from 5 °C to 40 °C, both
/// included.
pub open spec fn yeast_is_active(millidegrees: i64) -> bool {
    COLDEST_MILLIDEGREES <= millidegrees <= WARMEST_MILLIDEGREES
}

/// The sugar of the must in hundredths of a gram per litre, after the
/// climate's adjustment.
pub open spec fn sugar_hundredths(sugar: u32, climate: Climate) -> int {
    sugar * climate.sugar_percent()
}

/// The progress of the yeast in millionths, never more than the whole.
pub open spec fn progress_millionths(kinetic_millionths: u64) -> int {
    if kinetic_millionths > FRACTION_SCALE {
        FRACTION_SCALE as int
    } else {
        kinetic_millionths as int
    }
}

/// The progress of the yeast as a fraction of the sugar.
pub open spec fn progress(kinetic_millionths: u64) -> Rational {
    Rational { num: progress_millionths(kinetic_millionths), den: FRACTION_SCALE as int }
}

/// The sugar that ferments to one percent of alcohol by volume: 16.83 g/L.
pub open spec fn sugar_per_abv() -> Rational {
    Rational { num: SUGAR_PER_ABV_HUNDREDTHS as int, den: 100 }
}

/// The sugar of the must after the climate's adjustment, in g/L.
pub open spec fn effective_sugar(sugar: u32, climate: Climate) -> Rational {
    Rational { num: sugar_hundredths(sugar, climate), den: 100 }
}

/// The alcohol by volume that all of the sugar would give.
pub open spec fn potential_abv(sugar: u32, climate: Climate) -> Rational {
    Rational { num: sugar_hundredths(sugar, climate), den: SUGAR_PER_ABV_HUNDREDTHS as int }
}

/// The alcohol by volume that the fermented sugar gives, before the cap.
pub open spec fn uncapped_abv(sugar: u32, climate: Climate, kinetic_millionths: u64) -> Rational {
    Rational {
        num: progress_millionths(kinetic_millionths) * sugar_hundredths(sugar, climate),
        den: SUGAR_PER_ABV_HUNDREDTHS * FRACTION_SCALE,
    }
}

/// Whether the fermented sugar would give more alcohol than the yeast
/// survives.
pub open spec fn abv_is_capped(sugar: u32, climate: Climate, kinetic_millionths: u64) -> bool {
    Rational::whole(ABV_CAP as int).less_than(uncapped_abv(sugar, climate, kinetic_millionths))
}

/// The alcohol by volume of the wine.
pub open spec fn actual_abv(sugar: u32, climate: Climate, kinetic_millionths: u64) -> Rational {
    if abv_is_capped(sugar, climate, kinetic_millionths) {
        Rational::whole(ABV_CAP as int)
    } else {
        uncapped_abv(sugar, climate, kinetic_millionths)
    }
}

/// The part of the sugar that counts as fermented: the progress of the
/// yeast, or, where the alcohol is capped, the part that gives the cap.
pub open spec fn fraction_fermented(
    sugar: u32,
    climate: Climate,
    kinetic_millionths: u64,
) -> Rational {
    if abv_is_capped(sugar, climate, kinetic_millionths) {
        Rational {
            num: ABV_CAP * SUGAR_PER_ABV_HUNDREDTHS,
            den: sugar_hundredths(sugar, climate),
        }
    } else {
        progress(kinetic_millionths)
    }
}

/// The sugar left in the wine: what the progress of the yeast did not
/// consume.
pub open spec fn residual_sugar(sugar: u32, climate: Climate, kinetic_millionths: u64) -> Rational {
    Rational {
        num: sugar_hundredths(sugar, climate) * (FRACTION_SCALE - progress_millionths(
            kinetic_millionths,
        )),
        den: 100 * FRACTION_SCALE,
    }
}

/// What a fermentation at a workable temperature gives.
pub open spec fn metrics(sugar: u32, climate: Climate, kinetic_millionths: u64) -> MetricsModel {
    MetricsModel {
        effective_sugar: effective_sugar(sugar, climate),
        potential_abv: potential_abv(sugar, climate),
        actual_abv: actual_abv(sugar, climate, kinetic_millionths),
        fraction_fermented: fraction_fermented(sugar, climate, kinetic_millionths),
        residual_sugar: residual_sugar(sugar, climate, kinetic_millionths),
        sweetness: Sweetness::classify(residual_sugar(sugar, climate, kinetic_millionths)),
        body: Body::classify(actual_abv(sugar, climate, kinetic_millionths)),
        acidity: climate.acidity_of(),
        alcohol_level: AlcoholLevel::classify(actual_abv(sugar, climate, kinetic_millionths)),
    }
}

/// Whether the yeast works at a temperature.
pub fn temperature_in_range(millidegrees: i64) -> (active: bool)
    ensures
        active == yeast_is_active(millidegrees),
{
    COLDEST_MILLIDEGREES <= millidegrees && millidegrees <= WARMEST_MILLIDEGREES
}

/// Ferments a must of `sugar` grams of sugar per litre, grown in `climate`,
/// at `millidegrees` thousandths of a degree Celsius. `kinetic_millionths` is
/// the part of the sugar that the yeast would consume in the time given, in
/// millionths; more than a million counts as all of it. Below 5 °C and above
/// 40 °C the fermentation fails and gives no metrics.
pub fn ferment(sugar: u32, climate: Climate, millidegrees: i64, kinetic_millionths: u64) -> (outcome:
    Result<Metrics, Failure>)
    ensures
        outcome is Ok <==> yeast_is_active(millidegrees),
        outcome matches Err(failure) ==> failure == Failure::TemperatureOutOfRange,
        outcome matches Ok(m) ==> m@.is_valid() && m@ == metrics(
            sugar,
            climate,
            kinetic_millionths,
        ),
{
    if !temperature_in_range(millidegrees) {
        return Err(Failure::TemperatureOutOfRange);
    }
    let percent: u64 = climate.modifiers().sugar_percent as u64;
    assert(sugar * percent <= 472_446_402_450) by (nonlinear_arith)
        requires
            sugar <= 0xFFFF_FFFF,
            percent <= 110,
    ;
    let hundredths: u64 = sugar as u64 * percent;
    let progress: u64 = if kinetic_millionths > FRACTION_SCALE {
        FRACTION_SCALE
    } else {
        kinetic_millionths
    };
    assert(progress * hundredths <= 1_000_000 * 472_446_402_450) by (nonlinear_arith)
        requires
            progress <= 1_000_000,
            hundredths <= 472_446_402_450,
    ;
    assert(hundredths * (FRACTION_SCALE - progress) <= 472_446_402_450 * 1_000_000)
        by (nonlinear_arith)
        requires
            progress <= 1_000_000,
            FRACTION_SCALE == 1_000_000,
            hundredths <= 472_446_402_450,
    ;
    let consumed: u64 = progress * hundredths;
    let uncapped = Ratio { num: consumed, den: SUGAR_PER_ABV_HUNDREDTHS * FRACTION_SCALE };
    let capped = Ratio::whole(ABV_CAP).less_than(&uncapped);
    assert(capped ==> hundredths > 0) by (nonlinear_arith)
        requires
            capped ==> progress * hundredths > 0,
    ;
    let actual_abv = if capped {
        Ratio::whole(ABV_CAP)
    } else {
        uncapped
    };
    let fraction_fermented = if capped {
        Ratio { num: ABV_CAP * SUGAR_PER_ABV_HUNDREDTHS, den: hundredths }
    } else {
        Ratio { num: progress, den: FRACTION_SCALE }
    };
    let residual_sugar = Ratio {
        num: hundredths * (FRACTION_SCALE - progress),
        den: 100 * FRACTION_SCALE,
    };
    Ok(
        Metrics {
            effective_sugar: Ratio { num: hundredths, den: 100 },
            potential_abv: Ratio { num: hundredths, den: SUGAR_PER_ABV_HUNDREDTHS },
            actual_abv,
            fraction_fermented,
            residual_sugar,
            sweetness: Sweetness::of(&residual_sugar),
            body: Body::of(&actual_abv),
            acidity: climate.acidity(),
            alcohol_level: AlcoholLevel::of(&actual_abv),
        },
    )
}

} // verus!
