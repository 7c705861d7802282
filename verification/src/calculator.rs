//! The calculator: from what the winemaker entered, the flavor table and the
//! progress of the yeast to the description of the wine.

use crate::climate::Climate;
use crate::fermentation::{
    ferment, metrics, temperature_in_range, yeast_is_active, Failure, Metrics, MetricsModel,
};
use crate::flavor::{flavor_note, is_flavor_note, WineRecord};
use crate::tannin::{tannin_base, tannin_level, tannin_text};
use crate::text::unicode_lowercase;
use vstd::prelude::*;

verus! {

/// What the winemaker entered.
#[derive(Clone, Debug, PartialEq, Eq)]
pub struct FermentationInput {
    /// The grape variety, in any letter case.
    pub grape: String,
    /// The days of fermentation.
    pub days: u32,
    /// The vessel the wine ferments in, in any letter case.
    pub container: String,
    /// The sugar of the must in g/L, before the climate's adjustment.
    pub sugar_content: u32,
    /// The temperature in thousandths of a degree Celsius.
    pub temperature_millidegrees: i64,
    /// The name of the climate, in any letter case.
    pub climate: String,
}

/// The mathematical model of a [`FermentationInput`].
pub struct FermentationInputModel {
    pub grape: Seq<char>,
    pub days: u32,
    pub container: Seq<char>,
    pub sugar_content: u32,
    pub temperature_millidegrees: i64,
    pub climate: Seq<char>,
}

impl View for FermentationInput {
    type V = FermentationInputModel;

    open spec fn view(&self) -> FermentationInputModel {
        FermentationInputModel {
            grape: self.grape@,
            days: self.days,
            container: self.container@,
            sugar_content: self.sugar_content,
            temperature_millidegrees: self.temperature_millidegrees,
            climate: self.climate@,
        }
    }
}

/// The description of a wine.
#[derive(Clone, Debug, PartialEq, Eq)]
pub struct FermentationOutput {
    pub metrics: Metrics,
    /// The tannins of the wine, in words.
    pub tannin: String,
    /// What the wine tastes of.
    pub flavor_note: String,
}

/// The mathematical model of a [`FermentationOutput`].
pub struct FermentationOutputModel {
    pub metrics: MetricsModel,
    pub tannin: Seq<char>,
    pub flavor_note: Seq<char>,
}

impl View for FermentationOutput {
    type V = FermentationOutputModel;

    open spec fn view(&self) -> FermentationOutputModel {
        FermentationOutputModel {
            metrics: self.metrics@,
            tannin: self.tannin@,
            flavor_note: self.flavor_note@,
        }
    }
}

impl FermentationInputModel {
    /// The climate that the input names.
    pub open spec fn climate_named(self) -> Climate {
        Climate::named(unicode_lowercase(self.climate))
    }
}

/// The description of the wine that an input gives at a temperature at
/// which the yeast works, for a progress of the yeast and a flavor note.
pub open spec fn description(
    input: FermentationInputModel,
    kinetic_millionths: u64,
    note: Seq<char>,
) -> FermentationOutputModel {
    FermentationOutputModel {
        metrics: metrics(input.sugar_content, input.climate_named(), kinetic_millionths),
        tannin: tannin_text(unicode_lowercase(input.grape), input.climate_named()),
        flavor_note: note,
    }
}

/// Describes the wine that an input gives, for a progress of the yeast in
/// millionths and a flavor note. Below 5 °C and above 40 °C there is no wine
/// to describe.
pub fn describe(input: &FermentationInput, kinetic_millionths: u64, note: String) -> (described:
    Result<FermentationOutput, Failure>)
    ensures
        described is Ok <==> yeast_is_active(input.temperature_millidegrees),
        described matches Err(failure) ==> failure == Failure::TemperatureOutOfRange,
        described matches Ok(output) ==> output@.metrics.is_valid() && output@ == description(
            input@,
            kinetic_millionths,
            note@,
        ),
{
    let climate = Climate::from_name(input.climate.as_str());
    match ferment(
        input.sugar_content,
        climate,
        input.temperature_millidegrees,
        kinetic_millionths,
    ) {
        Ok(metrics) => {
            let grape = input.grape.as_str().to_lowercase();
            let tannin = tannin_level(
                tannin_base(grape.as_str()),
                climate.modifiers().tannin_percent,
            );
            Ok(FermentationOutput { metrics, tannin, flavor_note: note })
        },
        Err(failure) => Err(failure),
    }
}

/// Describes the wine that an input gives, for a progress of the yeast in
/// millionths: the part of the sugar that the yeast would consume in the
/// days given at the temperature given. The flavor note is that of one of
/// the rows that the table holds about the grape. Below 5 °C and above 40 °C
/// there is no wine to describe, and the table is not looked at.
pub fn compute(input: &FermentationInput, table: &Vec<WineRecord>, kinetic_millionths: u64) -> (computed:
    Result<FermentationOutput, Failure>)
    ensures
        computed is Ok <==> yeast_is_active(input.temperature_millidegrees),
        computed matches Err(failure) ==> failure == Failure::TemperatureOutOfRange,
        computed matches Ok(output) ==> {
            &&& output@.metrics.is_valid()
            &&& is_flavor_note(table.deep_view(), input.grape@, output.flavor_note@)
            &&& output@ == description(input@, kinetic_millionths, output.flavor_note@)
        },
{
    if !temperature_in_range(input.temperature_millidegrees) {
        return Err(Failure::TemperatureOutOfRange);
    }
    let note = flavor_note(table, input.grape.as_str());
    describe(input, kinetic_millionths, note)
}

} // verus!
