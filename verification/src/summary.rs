//! The summary of a fermentation in words.

use crate::calculator::{
    FermentationInput, FermentationInputModel, FermentationOutput, FermentationOutputModel,
};
use crate::numerals::{
    append_decimal, append_one_decimal, append_percent, append_thousandths, decimal_text,
    one_decimal_text, percent_text, thousandths_text,
};
use crate::text::{ascii_lowercase, same_text, unicode_lowercase};
use vstd::prelude::*;
use vstd::string::*;

verus! {

/// What a vessel adds to the wine, by its name in lower case.
pub open spec fn container_note_text(lowercase_container: Seq<char>) -> Seq<char> {
    if lowercase_container == "oak barrel"@ {
        "woody, oaky undertones"@
    } else if lowercase_container == "steel tank"@ {
        "a pristine, clean character"@
    } else if lowercase_container == "clay amphora"@ {
        "earthy nuances"@
    } else {
        "a distinct vessel charm"@
    }
}

/// The summary of a fermentation: the input echoed, the quantities rounded
/// to one digit behind the point, and the descriptors in words.
pub open spec fn summary_text(
    input: FermentationInputModel,
    output: FermentationOutputModel,
) -> Seq<char> {
    "Your "@ + input.grape + " wine was fermented over "@ + decimal_text(input.days as nat)
        + " days in a "@ + input.container + " that adds "@ + container_note_text(
        unicode_lowercase(input.container),
    ) + ". The initial sugar level was "@ + one_decimal_text(output.metrics.effective_sugar)
        + " g/L (adjusted for a "@ + unicode_lowercase(input.climate)
        + " climate), which could have reached a potential of "@ + one_decimal_text(
        output.metrics.potential_abv,
    ) + "% ABV.\n\nFermenting at "@ + thousandths_text(input.temperature_millidegrees as int)
        + "°C, about "@ + percent_text(output.metrics.fraction_fermented)
        + "% of that potential was met, resulting in a final ABV of "@ + one_decimal_text(
        output.metrics.actual_abv,
    ) + "%% and leaving behind a residual sugar of "@ + one_decimal_text(
        output.metrics.residual_sugar,
    ) + " g/L, making it "@ + output.metrics.sweetness.text() + ".\n\nThe wine is "@
        + output.metrics.body.text() + " in body, with "@ + output.tannin + " tannins and "@
        + output.metrics.acidity.text() + " acidity. It shows hints of "@ + ascii_lowercase(
        output.flavor_note,
    ) + " in its flavor profile.\n\nThe alcohol content is classified as "@
        + output.metrics.alcohol_level.text() + ".\n\nEnjoy your wine."@
}

/// What a vessel adds to the wine, by its name in lower case.
pub fn container_note(lowercase_container: &str) -> (note: &'static str)
    ensures
        note@ == container_note_text(lowercase_container@),
{
    if same_text(lowercase_container, "oak barrel") {
        "woody, oaky undertones"
    } else if same_text(lowercase_container, "steel tank") {
        "a pristine, clean character"
    } else if same_text(lowercase_container, "clay amphora") {
        "earthy nuances"
    } else {
        "a distinct vessel charm"
    }
}

/// The summary of a fermentation in words.
pub fn summary(input: &FermentationInput, output: &FermentationOutput) -> (text: String)
    requires
        output@.metrics.is_valid(),
    ensures
        text@ == summary_text(input@, output@),
{
    let container = input.container.as_str().to_lowercase();
    let climate = input.climate.as_str().to_lowercase();
    let flavor = output.flavor_note.as_str().to_ascii_lowercase();
    let metrics = &output.metrics;
    let mut text = "Your ".to_owned();
    text.append(input.grape.as_str());
    text.append(" wine was fermented over ");
    append_decimal(&mut text, input.days as u128);
    text.append(" days in a ");
    text.append(input.container.as_str());
    text.append(" that adds ");
    text.append(container_note(container.as_str()));
    text.append(". The initial sugar level was ");
    append_one_decimal(&mut text, &metrics.effective_sugar);
    text.append(" g/L (adjusted for a ");
    text.append(climate.as_str());
    text.append(" climate), which could have reached a potential of ");
    append_one_decimal(&mut text, &metrics.potential_abv);
    text.append("% ABV.\n\nFermenting at ");
    append_thousandths(&mut text, input.temperature_millidegrees);
    text.append("°C, about ");
    append_percent(&mut text, &metrics.fraction_fermented);
    text.append("% of that potential was met, resulting in a final ABV of ");
    append_one_decimal(&mut text, &metrics.actual_abv);
    text.append("%% and leaving behind a residual sugar of ");
    append_one_decimal(&mut text, &metrics.residual_sugar);
    text.append(" g/L, making it ");
    text.append(metrics.sweetness.phrase());
    text.append(".\n\nThe wine is ");
    text.append(metrics.body.phrase());
    text.append(" in body, with ");
    text.append(output.tannin.as_str());
    text.append(" tannins and ");
    text.append(metrics.acidity.phrase());
    text.append(" acidity. It shows hints of ");
    text.append(flavor.as_str());
    text.append(" in its flavor profile.\n\nThe alcohol content is classified as ");
    text.append(metrics.alcohol_level.phrase());
    text.append(".\n\nEnjoy your wine.");
    text
}

} // verus!
