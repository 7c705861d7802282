//! The tannins of a wine: what the grape brings, and what the climate adds
//! to it.

use crate::climate::Climate;
use crate::text::same_text;
use vstd::prelude::*;
use vstd::string::*;

verus! {

/// The tannins that a grape brings, by its name in lower case.
pub open spec fn base_text(lowercase_grape: Seq<char>) -> Seq<char> {
    if lowercase_grape == "cabernet sauvignon"@ {
        "robust, high tannins"@
    } else if lowercase_grape == "merlot"@ {
        "smooth, moderate tannins"@
    } else if lowercase_grape == "pinot noir"@ {
        "delicate, low tannins"@
    } else if lowercase_grape == "syrah"@ || lowercase_grape == "shiraz"@ {
        "moderate tannins"@
    } else if lowercase_grape == "tempranillo"@ {
        "moderate tannins"@
    } else if lowercase_grape == "zinfandel"@ {
        "spicy, moderately high tannins"@
    } else if lowercase_grape == "sangiovese"@ {
        "moderate tannins"@
    } else if lowercase_grape == "chardonnay"@ {
        "minimal tannins"@
    } else if lowercase_grape == "sauvignon blanc"@ {
        "minimal tannins"@
    } else if lowercase_grape == "riesling"@ {
        "very minimal tannins"@
    } else {
        "unknown tannin levels"@
    }
}

/// The tannins of the wine: those of the grape, with a remark where the
/// climate's tannin multiplier, in percent, is not 100.
pub open spec fn level_text(base: Seq<char>, tannin_percent: int) -> Seq<char> {
    if tannin_percent > 100 {
        base + " (slightly accentuated by the warm climate)"@
    } else if tannin_percent < 100 {
        base + " (somewhat less pronounced in the cool climate)"@
    } else {
        base
    }
}

/// The tannins of a wine from a grape, by its name in lower case, grown in
/// a climate.
pub open spec fn tannin_text(lowercase_grape: Seq<char>, climate: Climate) -> Seq<char> {
    level_text(base_text(lowercase_grape), climate.tannin_percent())
}

/// The tannins that a grape brings, by its name in lower case.
pub fn tannin_base(lowercase_grape: &str) -> (base: &'static str)
    ensures
        base@ == base_text(lowercase_grape@),
{
    if same_text(lowercase_grape, "cabernet sauvignon") {
        "robust, high tannins"
    } else if same_text(lowercase_grape, "merlot") {
        "smooth, moderate tannins"
    } else if same_text(lowercase_grape, "pinot noir") {
        "delicate, low tannins"
    } else if same_text(lowercase_grape, "syrah") || same_text(lowercase_grape, "shiraz") {
        "moderate tannins"
    } else if same_text(lowercase_grape, "tempranillo") {
        "moderate tannins"
    } else if same_text(lowercase_grape, "zinfandel") {
        "spicy, moderately high tannins"
    } else if same_text(lowercase_grape, "sangiovese") {
        "moderate tannins"
    } else if same_text(lowercase_grape, "chardonnay") {
        "minimal tannins"
    } else if same_text(lowercase_grape, "sauvignon blanc") {
        "minimal tannins"
    } else if same_text(lowercase_grape, "riesling") {
        "very minimal tannins"
    } else {
        "unknown tannin levels"
    }
}

/// The tannins of the wine: those of the grape, with a remark where the
/// climate's tannin multiplier, in percent, is not 100.
pub fn tannin_level(base: &str, tannin_percent: u32) -> (level: String)
    ensures
        level@ == level_text(base@, tannin_percent as int),
{
    let mut level = base.to_owned();
    if tannin_percent > 100 {
        level.append(" (slightly accentuated by the warm climate)");
    } else if tannin_percent < 100 {
        level.append(" (somewhat less pronounced in the cool climate)");
    }
    level
}

} // verus!
