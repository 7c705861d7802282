//! The form of the simulator: what the winemaker typed, the flavor table,
//! and the text that a simulation leaves behind.

use crate::calculator::{compute, description, FermentationInput, FermentationInputModel};
use crate::fermentation::{yeast_is_active, Failure};
use crate::flavor::{is_flavor_note, WineRecord};
use crate::summary::{summary, summary_text};
use crate::text::{field_count, read_count};
use vstd::prelude::*;

verus! {

/// The state of the simulator.
pub struct WineFermentationApp {
    /// The flavor table.
    pub wine_data: Vec<WineRecord>,
    pub grape_type: String,
    /// The days of fermentation, as typed.
    pub fermentation_days: String,
    pub container_type: String,
    /// The sugar of the must in g/L, as typed.
    pub sugar_content: String,
    /// The temperature in degrees Celsius, as typed. A simulation takes the
    /// temperature as a number; this field only keeps the text.
    pub temperature: String,
    pub climate: String,
    /// What the last simulation said.
    pub result_text: String,
}

impl WineFermentationApp {
    /// The input that the form holds, for a temperature in thousandths of a
    /// degree Celsius. A count that cannot be read counts as zero.
    pub open spec fn input_model(&self, millidegrees: i64) -> FermentationInputModel {
        FermentationInputModel {
            grape: self.grape_type@,
            days: field_count(self.fermentation_days@),
            container: self.container_type@,
            sugar_content: field_count(self.sugar_content@),
            temperature_millidegrees: millidegrees,
            climate: self.climate@,
        }
    }

    /// What a simulation says for a temperature, a progress of the yeast and
    /// a flavor note: the summary of the wine, or why there is none.
    pub open spec fn result_for(
        &self,
        millidegrees: i64,
        kinetic_millionths: u64,
        note: Seq<char>,
    ) -> Seq<char> {
        if yeast_is_active(millidegrees) {
            summary_text(
                self.input_model(millidegrees),
                description(self.input_model(millidegrees), kinetic_millionths, note),
            )
        } else {
            Failure::TemperatureOutOfRange.text()
        }
    }

    /// A form with nothing typed in it, over a flavor table.
    pub fn new(wine_data: Vec<WineRecord>) -> (app: Self)
        ensures
            app.wine_data == wine_data,
            app.grape_type@ == Seq::<char>::empty(),
            app.fermentation_days@ == Seq::<char>::empty(),
            app.container_type@ == Seq::<char>::empty(),
            app.sugar_content@ == Seq::<char>::empty(),
            app.temperature@ == Seq::<char>::empty(),
            app.climate@ == Seq::<char>::empty(),
            app.result_text@ == Seq::<char>::empty(),
    {
        WineFermentationApp {
            wine_data,
            grape_type: String::new(),
            fermentation_days: String::new(),
            container_type: String::new(),
            sugar_content: String::new(),
            temperature: String::new(),
            climate: String::new(),
            result_text: String::new(),
        }
    }

    /// The days of fermentation that the form holds.
    pub fn days(&self) -> (days: u32)
        ensures
            days == field_count(self.fermentation_days@),
    {
        read_count(self.fermentation_days.as_str())
    }

    /// The input that the form holds, for a temperature in thousandths of a
    /// degree Celsius.
    pub fn input(&self, millidegrees: i64) -> (input: FermentationInput)
        ensures
            input@ == self.input_model(millidegrees),
    {
        FermentationInput {
            grape: self.grape_type.clone(),
            days: read_count(self.fermentation_days.as_str()),
            container: self.container_type.clone(),
            sugar_content: read_count(self.sugar_content.as_str()),
            temperature_millidegrees: millidegrees,
            climate: self.climate.clone(),
        }
    }

    /// Runs a simulation and leaves what it says in `result_text`.
    /// `millidegrees` is the temperature in thousandths of a degree Celsius,
    /// `kinetic_millionths` the part of the sugar, in millionths, that the
    /// yeast would consume at that temperature in the days that the form
    /// holds. Outside the range of temperatures at which the yeast works the
    /// result is the failure message. The flavor note of the summary is that
    /// of one of the rows that the table holds about the grape.
    pub fn simulate(&mut self, millidegrees: i64, kinetic_millionths: u64)
        ensures
            final(self).wine_data == old(self).wine_data,
            final(self).grape_type == old(self).grape_type,
            final(self).fermentation_days == old(self).fermentation_days,
            final(self).container_type == old(self).container_type,
            final(self).sugar_content == old(self).sugar_content,
            final(self).temperature == old(self).temperature,
            final(self).climate == old(self).climate,
            !yeast_is_active(millidegrees) ==> final(self).result_text@
                == Failure::TemperatureOutOfRange.text(),
            yeast_is_active(millidegrees) ==> exists|note: Seq<char>|
                #[trigger] is_flavor_note(old(self).wine_data.deep_view(), old(self).grape_type@, note)
                    && final(self).result_text@ == old(self).result_for(
                    millidegrees,
                    kinetic_millionths,
                    note,
                ),
    {
        let input = self.input(millidegrees);
        match compute(&input, &self.wine_data, kinetic_millionths) {
            Ok(output) => {
                self.result_text = summary(&input, &output);
                assert(is_flavor_note(
                    old(self).wine_data.deep_view(),
                    old(self).grape_type@,
                    output.flavor_note@,
                ));
            },
            Err(failure) => {
                self.result_text = failure.message().to_owned();
            },
        }
    }
}

} // verus!
