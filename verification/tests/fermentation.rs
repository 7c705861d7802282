use wine_fermentation::climate::{Acidity, Climate};
use wine_fermentation::descriptors::{AlcoholLevel, Body, Sweetness};
use wine_fermentation::fermentation::{ferment, temperature_in_range, Failure, Metrics};
use wine_fermentation::ratio::Ratio;

fn value(r: &Ratio) -> f64 {
    r.num as f64 / r.den as f64
}

fn fermented(sugar: u32, climate: Climate, millidegrees: i64, kinetic: u64) -> Metrics {
    match ferment(sugar, climate, millidegrees, kinetic) {
        Ok(metrics) => metrics,
        Err(failure) => panic!("fermentation failed: {:?}", failure),
    }
}

#[test]
fn merlot_scenario_with_the_stated_progress() {
    let m = fermented(220, Climate::Moderate, 22_000, 963_700);
    assert_eq!(m.effective_sugar, Ratio { num: 22_000, den: 100 });
    assert_eq!(m.potential_abv, Ratio { num: 22_000, den: 1683 });
    assert!((value(&m.potential_abv) - 13.07).abs() < 0.01);
    assert_eq!(m.fraction_fermented, Ratio { num: 963_700, den: 1_000_000 });
    assert_eq!(m.actual_abv, Ratio { num: 21_201_400_000, den: 1_683_000_000 });
    assert!((value(&m.actual_abv) - 12.59).abs() < 0.01);
    assert_eq!(m.residual_sugar, Ratio { num: 798_600_000, den: 100_000_000 });
    assert!((value(&m.residual_sugar) - 8.0).abs() < 0.05);
    assert_eq!(m.sweetness, Sweetness::SubtleHint);
    assert_eq!(m.body, Body::Full);
    assert_eq!(m.alcohol_level, AlcoholLevel::Moderate);
    assert_eq!(m.acidity, Acidity::Moderate);
}

#[test]
fn merlot_scenario_with_the_progress_of_the_rate_model() {
    let rate = 0.20 * 2f64.powf((22.0 - 20.0) / 10.0);
    assert!((rate - 0.2297).abs() < 0.0001);
    let progress = 1.0 - (-rate * 14.0).exp();
    let kinetic = (progress * 1_000_000.0).round() as u64;
    let m = fermented(220, Climate::Moderate, 22_000, kinetic);
    assert_eq!(m.potential_abv, Ratio { num: 22_000, den: 1683 });
    assert!(value(&m.actual_abv) < value(&m.potential_abv));
    assert_eq!(m.fraction_fermented, Ratio { num: kinetic, den: 1_000_000 });
    assert_eq!(m.sweetness, Sweetness::SubtleHint);
    assert_eq!(m.body, Body::Full);
    assert_eq!(m.alcohol_level, AlcoholLevel::Moderate);
}

#[test]
fn forty_five_degrees_fail_whatever_the_rest() {
    assert_eq!(ferment(220, Climate::Moderate, 45_000, 963_700), Err(Failure::TemperatureOutOfRange));
    assert_eq!(ferment(0, Climate::Cool, 45_000, 0), Err(Failure::TemperatureOutOfRange));
    assert_eq!(ferment(u32::MAX, Climate::Warm, 45_000, u64::MAX), Err(Failure::TemperatureOutOfRange));
    assert_eq!(ferment(300, Climate::Unknown, 45_000, 1_000_000), Err(Failure::TemperatureOutOfRange));
}

#[test]
fn the_range_of_temperatures_includes_its_ends() {
    assert!(ferment(220, Climate::Moderate, 4_999, 500_000).is_err());
    assert!(ferment(220, Climate::Moderate, 5_000, 500_000).is_ok());
    assert!(ferment(220, Climate::Moderate, 40_000, 500_000).is_ok());
    assert!(ferment(220, Climate::Moderate, 40_001, 500_000).is_err());
    assert!(ferment(220, Climate::Moderate, 0, 500_000).is_err());
    assert!(ferment(220, Climate::Moderate, -10_000, 500_000).is_err());
    assert!(ferment(220, Climate::Moderate, i64::MIN, 500_000).is_err());
    assert!(ferment(220, Climate::Moderate, i64::MAX, 500_000).is_err());
    assert!(!temperature_in_range(4_999));
    assert!(temperature_in_range(5_000));
    assert!(temperature_in_range(20_000));
    assert!(temperature_in_range(40_000));
    assert!(!temperature_in_range(40_001));
}

#[test]
fn failure_message_is_fixed() {
    assert_eq!(
        Failure::TemperatureOutOfRange.message(),
        "Fermentation failed: temperature out of range for yeast activity."
    );
}

#[test]
fn potential_abv_is_effective_sugar_over_16_83() {
    let cool = fermented(200, Climate::Cool, 20_000, 0);
    assert_eq!(cool.effective_sugar, Ratio { num: 18_000, den: 100 });
    assert_eq!(cool.potential_abv, Ratio { num: 18_000, den: 1683 });
    assert!((value(&cool.potential_abv) - 200.0 * 0.90 / 16.83).abs() < 1e-9);
    let warm = fermented(200, Climate::Warm, 20_000, 0);
    assert_eq!(warm.effective_sugar, Ratio { num: 22_000, den: 100 });
    assert_eq!(warm.potential_abv, Ratio { num: 22_000, den: 1683 });
    assert!((value(&warm.potential_abv) - 200.0 * 1.10 / 16.83).abs() < 1e-9);
    let unknown = fermented(1683, Climate::Unknown, 20_000, 0);
    assert_eq!(unknown.potential_abv, Ratio { num: 168_300, den: 1683 });
    assert_eq!(unknown.potential_abv.num, 100 * unknown.potential_abv.den);
}

#[test]
fn progress_counts_up_to_the_whole() {
    let whole = fermented(100, Climate::Moderate, 20_000, 1_000_000);
    let more = fermented(100, Climate::Moderate, 20_000, 1_000_001);
    let most = fermented(100, Climate::Moderate, 20_000, u64::MAX);
    assert_eq!(whole.fraction_fermented, Ratio { num: 1_000_000, den: 1_000_000 });
    assert_eq!(more, whole);
    assert_eq!(most, whole);
    assert_eq!(whole.residual_sugar.num, 0);
    assert_eq!(whole.sweetness, Sweetness::BoneDry);
    let none = fermented(100, Climate::Moderate, 20_000, 0);
    assert_eq!(none.fraction_fermented, Ratio { num: 0, den: 1_000_000 });
    assert_eq!(none.actual_abv, Ratio { num: 0, den: 1_683_000_000 });
    assert_eq!(none.residual_sugar, Ratio { num: 10_000_000_000, den: 100_000_000 });
    assert_eq!(none.alcohol_level, AlcoholLevel::ExtremelyLow);
    assert_eq!(none.sweetness, Sweetness::ExtremelySweet);
}

#[test]
fn alcohol_is_capped_at_fifteen_percent() {
    let m = fermented(300, Climate::Warm, 30_000, 1_000_000);
    assert_eq!(m.effective_sugar, Ratio { num: 33_000, den: 100 });
    assert!(value(&m.potential_abv) > 15.0);
    assert_eq!(m.actual_abv, Ratio { num: 15, den: 1 });
    assert_eq!(m.fraction_fermented, Ratio { num: 25_245, den: 33_000 });
    assert!((value(&m.fraction_fermented) - 15.0 * 16.83 / 330.0).abs() < 1e-12);
    assert_eq!(m.residual_sugar, Ratio { num: 0, den: 100_000_000 });
    assert_eq!(m.sweetness, Sweetness::BoneDry);
    assert_eq!(m.body, Body::Full);
    assert_eq!(m.alcohol_level, AlcoholLevel::VeryHigh);
    assert_eq!(m.acidity, Acidity::Low);
}

#[test]
fn exactly_fifteen_percent_is_not_capped() {
    // 252.45 g/L of sugar, all of it fermented, give 15 percent.
    let m = fermented(25_245, Climate::Moderate, 20_000, 10_000);
    assert_eq!(m.actual_abv, Ratio { num: 25_245_000_000, den: 1_683_000_000 });
    assert_eq!(m.actual_abv.num, 15 * m.actual_abv.den);
    assert_eq!(m.fraction_fermented, Ratio { num: 10_000, den: 1_000_000 });
    assert_eq!(m.alcohol_level, AlcoholLevel::VeryHigh);
    let above = fermented(25_246, Climate::Moderate, 20_000, 10_000);
    assert_eq!(above.actual_abv, Ratio { num: 15, den: 1 });
    assert_eq!(above.fraction_fermented, Ratio { num: 25_245, den: 2_524_600 });
}

#[test]
fn residual_sugar_is_what_the_yeast_left() {
    let m = fermented(250, Climate::Cool, 18_000, 400_000);
    // 225 g/L effective, 40 percent consumed, 135 g/L left.
    assert_eq!(m.residual_sugar, Ratio { num: 22_500 * 600_000, den: 100_000_000 });
    assert_eq!(m.residual_sugar.num, 135 * m.residual_sugar.den);
    assert_eq!(m.sweetness, Sweetness::ExtremelySweet);
    let eff = value(&m.effective_sugar);
    let fraction = value(&m.fraction_fermented);
    assert!((value(&m.residual_sugar) - (eff - fraction * eff)).abs() < 1e-9);
}

#[test]
fn residual_sugar_of_a_capped_wine_follows_the_progress() {
    let m = fermented(400, Climate::Warm, 25_000, 900_000);
    assert_eq!(m.actual_abv, Ratio { num: 15, den: 1 });
    assert_eq!(m.fraction_fermented, Ratio { num: 25_245, den: 44_000 });
    // 440 g/L effective, nine tenths of it consumed.
    assert_eq!(m.residual_sugar.num, 44 * m.residual_sugar.den);
    assert_eq!(m.sweetness, Sweetness::ExtremelySweet);
}

#[test]
fn largest_inputs_are_computed() {
    let m = fermented(u32::MAX, Climate::Warm, 40_000, u64::MAX);
    assert_eq!(m.effective_sugar, Ratio { num: 472_446_402_450, den: 100 });
    assert_eq!(m.actual_abv, Ratio { num: 15, den: 1 });
    assert_eq!(m.fraction_fermented, Ratio { num: 25_245, den: 472_446_402_450 });
    assert_eq!(m.residual_sugar.num, 0);
    let n = fermented(u32::MAX, Climate::Warm, 40_000, 1);
    assert_eq!(n.residual_sugar, Ratio { num: 472_446_402_450 * 999_999, den: 100_000_000 });
}

#[test]
fn no_sugar_gives_no_alcohol() {
    let m = fermented(0, Climate::Warm, 25_000, 1_000_000);
    assert_eq!(m.potential_abv, Ratio { num: 0, den: 1683 });
    assert_eq!(m.actual_abv, Ratio { num: 0, den: 1_683_000_000 });
    assert_eq!(m.fraction_fermented, Ratio { num: 1_000_000, den: 1_000_000 });
    assert_eq!(m.residual_sugar.num, 0);
    assert_eq!(m.alcohol_level, AlcoholLevel::ExtremelyLow);
    assert_eq!(m.body, Body::Light);
}

#[test]
fn sweetness_thresholds() {
    assert_eq!(Sweetness::of(&Ratio { num: 351, den: 10 }), Sweetness::ExtremelySweet);
    assert_eq!(Sweetness::of(&Ratio { num: 35, den: 1 }), Sweetness::NoticeablySweet);
    assert_eq!(Sweetness::of(&Ratio { num: 201, den: 10 }), Sweetness::NoticeablySweet);
    assert_eq!(Sweetness::of(&Ratio { num: 20, den: 1 }), Sweetness::SubtleHint);
    assert_eq!(Sweetness::of(&Ratio { num: 51, den: 10 }), Sweetness::SubtleHint);
    assert_eq!(Sweetness::of(&Ratio { num: 5, den: 1 }), Sweetness::BoneDry);
    assert_eq!(Sweetness::of(&Ratio { num: 0, den: 1 }), Sweetness::BoneDry);
    assert_eq!(Sweetness::ExtremelySweet.phrase(), "extremely sweet");
    assert_eq!(Sweetness::NoticeablySweet.phrase(), "noticeably sweet");
    assert_eq!(Sweetness::SubtleHint.phrase(), "with just a subtle hint of sweetness");
    assert_eq!(Sweetness::BoneDry.phrase(), "bone dry");
}

#[test]
fn body_thresholds() {
    assert_eq!(Body::of(&Ratio { num: 121, den: 10 }), Body::Full);
    assert_eq!(Body::of(&Ratio { num: 12, den: 1 }), Body::Medium);
    assert_eq!(Body::of(&Ratio { num: 10, den: 1 }), Body::Medium);
    assert_eq!(Body::of(&Ratio { num: 99, den: 10 }), Body::Light);
    assert_eq!(Body::of(&Ratio { num: 0, den: 5 }), Body::Light);
    assert_eq!(Body::Full.phrase(), "full-bodied");
    assert_eq!(Body::Medium.phrase(), "medium-bodied");
    assert_eq!(Body::Light.phrase(), "light-bodied");
}

#[test]
fn alcohol_level_thresholds() {
    assert_eq!(AlcoholLevel::of(&Ratio { num: 0, den: 1 }), AlcoholLevel::ExtremelyLow);
    assert_eq!(AlcoholLevel::of(&Ratio { num: 1, den: 1 }), AlcoholLevel::ExtremelyLow);
    assert_eq!(AlcoholLevel::of(&Ratio { num: 11, den: 10 }), AlcoholLevel::VeryLow);
    assert_eq!(AlcoholLevel::of(&Ratio { num: 49, den: 10 }), AlcoholLevel::VeryLow);
    assert_eq!(AlcoholLevel::of(&Ratio { num: 5, den: 1 }), AlcoholLevel::Low);
    assert_eq!(AlcoholLevel::of(&Ratio { num: 99, den: 10 }), AlcoholLevel::Low);
    assert_eq!(AlcoholLevel::of(&Ratio { num: 10, den: 1 }), AlcoholLevel::Moderate);
    assert_eq!(AlcoholLevel::of(&Ratio { num: 134, den: 10 }), AlcoholLevel::Moderate);
    assert_eq!(AlcoholLevel::of(&Ratio { num: 27, den: 2 }), AlcoholLevel::High);
    assert_eq!(AlcoholLevel::of(&Ratio { num: 149, den: 10 }), AlcoholLevel::High);
    assert_eq!(AlcoholLevel::of(&Ratio { num: 15, den: 1 }), AlcoholLevel::VeryHigh);
    assert_eq!(AlcoholLevel::of(&Ratio { num: 199, den: 10 }), AlcoholLevel::VeryHigh);
    assert_eq!(AlcoholLevel::of(&Ratio { num: 20, den: 1 }), AlcoholLevel::ExtremelyHigh);
    assert_eq!(AlcoholLevel::of(&Ratio { num: 100, den: 1 }), AlcoholLevel::ExtremelyHigh);
    assert_eq!(AlcoholLevel::ExtremelyLow.phrase(), "extremely low");
    assert_eq!(AlcoholLevel::VeryLow.phrase(), "very low");
    assert_eq!(AlcoholLevel::Low.phrase(), "low");
    assert_eq!(AlcoholLevel::Moderate.phrase(), "moderate");
    assert_eq!(AlcoholLevel::High.phrase(), "high");
    assert_eq!(AlcoholLevel::VeryHigh.phrase(), "very high");
    assert_eq!(AlcoholLevel::ExtremelyHigh.phrase(), "extremely high");
}

#[test]
fn descriptors_follow_the_quantities() {
    let m = fermented(180, Climate::Cool, 15_000, 700_000);
    assert_eq!(m.sweetness, Sweetness::of(&m.residual_sugar));
    assert_eq!(m.body, Body::of(&m.actual_abv));
    assert_eq!(m.alcohol_level, AlcoholLevel::of(&m.actual_abv));
    assert_eq!(m.acidity, Acidity::High);
    // 162 g/L effective; 113.4 consumed give 6.74 percent, 48.6 are left.
    assert_eq!(m.sweetness, Sweetness::ExtremelySweet);
    assert_eq!(m.body, Body::Light);
    assert_eq!(m.alcohol_level, AlcoholLevel::Low);
}
