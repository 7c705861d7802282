//! The words that describe a finished wine: sweetness from the residual
//! sugar, body and alcohol level from the alcohol by volume.

use crate::ratio::{Ratio, Rational};
use vstd::prelude::*;

verus! {

/// How sweet the wine tastes.
#[derive(Clone, Copy, Debug, PartialEq, Eq, Structural)]
pub enum Sweetness {
    ExtremelySweet,
    NoticeablySweet,
    SubtleHint,
    BoneDry,
}

/// How heavy the wine feels.
#[derive(Clone, Copy, Debug, PartialEq, Eq, Structural)]
pub enum Body {
    Full,
    Medium,
    Light,
}

/// The class of the alcohol content.
#[derive(Clone, Copy, Debug, PartialEq, Eq, Structural)]
pub enum AlcoholLevel {
    ExtremelyLow,
    VeryLow,
    Low,
    Moderate,
    High,
    VeryHigh,
    ExtremelyHigh,
}

impl Sweetness {
    /// The sweetness that goes with a residual sugar in grams per litre:
    /// above 35 extremely sweet, above 20 noticeably sweet, above 5 a subtle
    /// hint, otherwise bone dry.
    pub open spec fn classify(residual_sugar: Rational) -> Sweetness {
        if Rational::whole(35).less_than(residual_sugar) {
            Sweetness::ExtremelySweet
        } else if Rational::whole(20).less_than(residual_sugar) {
            Sweetness::NoticeablySweet
        } else if Rational::whole(5).less_than(residual_sugar) {
            Sweetness::SubtleHint
        } else {
            Sweetness::BoneDry
        }
    }

    /// The words for this sweetness.
    pub open spec fn text(self) -> Seq<char> {
        match self {
            Sweetness::ExtremelySweet => "extremely sweet"@,
            Sweetness::NoticeablySweet => "noticeably sweet"@,
            Sweetness::SubtleHint => "with just a subtle hint of sweetness"@,
            Sweetness::BoneDry => "bone dry"@,
        }
    }

    /// The sweetness that goes with a residual sugar in grams per litre.
    pub fn of(residual_sugar: &Ratio) -> (s: Sweetness)
        ensures
            s == Sweetness::classify(residual_sugar@),
    {
        if Ratio::whole(35).less_than(residual_sugar) {
            Sweetness::ExtremelySweet
        } else if Ratio::whole(20).less_than(residual_sugar) {
            Sweetness::NoticeablySweet
        } else if Ratio::whole(5).less_than(residual_sugar) {
            Sweetness::SubtleHint
        } else {
            Sweetness::BoneDry
        }
    }

    /// The words for this sweetness.
    pub fn phrase(self) -> (p: &'static str)
        ensures
            p@ == self.text(),
    {
        match self {
            Sweetness::ExtremelySweet => "extremely sweet",
            Sweetness::NoticeablySweet => "noticeably sweet",
            Sweetness::SubtleHint => "with just a subtle hint of sweetness",
            Sweetness::BoneDry => "bone dry",
        }
    }
}

impl Body {
    /// The body that goes with an alcohol by volume in percent: above 12
    /// full, from 10 on medium, otherwise light.
    pub open spec fn classify(abv: Rational) -> Body {
        if Rational::whole(12).less_than(abv) {
            Body::Full
        } else if Rational::whole(10).at_most(abv) {
            Body::Medium
        } else {
            Body::Light
        }
    }

    /// The words for this body.
    pub open spec fn text(self) -> Seq<char> {
        match self {
            Body::Full => "full-bodied"@,
            Body::Medium => "medium-bodied"@,
            Body::Light => "light-bodied"@,
        }
    }

    /// The body that goes with an alcohol by volume in percent.
    pub fn of(abv: &Ratio) -> (b: Body)
        ensures
            b == Body::classify(abv@),
    {
        if Ratio::whole(12).less_than(abv) {
            Body::Full
        } else if Ratio::whole(10).at_most(abv) {
            Body::Medium
        } else {
            Body::Light
        }
    }

    /// The words for this body.
    pub fn phrase(self) -> (p: &'static str)
        ensures
            p@ == self.text(),
    {
        match self {
            Body::Full => "full-bodied",
            Body::Medium => "medium-bodied",
            Body::Light => "light-bodied",
        }
    }
}

impl AlcoholLevel {
    /// The level that goes with an alcohol by volume in percent: up to 1
    /// extremely low, below 5 very low, below 10 low, below 13.5 moderate,
    /// below 15 high, below 20 very high, otherwise extremely high.
    pub open spec fn classify(abv: Rational) -> AlcoholLevel {
        if abv.at_most(Rational::whole(1)) {
            AlcoholLevel::ExtremelyLow
        } else if abv.less_than(Rational::whole(5)) {
            AlcoholLevel::VeryLow
        } else if abv.less_than(Rational::whole(10)) {
            AlcoholLevel::Low
        } else if abv.less_than(Rational { num: 27, den: 2 }) {
            AlcoholLevel::Moderate
        } else if abv.less_than(Rational::whole(15)) {
            AlcoholLevel::High
        } else if abv.less_than(Rational::whole(20)) {
            AlcoholLevel::VeryHigh
        } else {
            AlcoholLevel::ExtremelyHigh
        }
    }

    /// The words for this level.
    pub open spec fn text(self) -> Seq<char> {
        match self {
            AlcoholLevel::ExtremelyLow => "extremely low"@,
            AlcoholLevel::VeryLow => "very low"@,
            AlcoholLevel::Low => "low"@,
            AlcoholLevel::Moderate => "moderate"@,
            AlcoholLevel::High => "high"@,
            AlcoholLevel::VeryHigh => "very high"@,
            AlcoholLevel::ExtremelyHigh => "extremely high"@,
        }
    }

    /// The level that goes with an alcohol by volume in percent.
    pub fn of(abv: &Ratio) -> (level: AlcoholLevel)
        ensures
            level == AlcoholLevel::classify(abv@),
    {
        let thirteen_and_a_half = Ratio { num: 27, den: 2 };
        if abv.at_most(&Ratio::whole(1)) {
            AlcoholLevel::ExtremelyLow
        } else if abv.less_than(&Ratio::whole(5)) {
            AlcoholLevel::VeryLow
        } else if abv.less_than(&Ratio::whole(10)) {
            AlcoholLevel::Low
        } else if abv.less_than(&thirteen_and_a_half) {
            AlcoholLevel::Moderate
        } else if abv.less_than(&Ratio::whole(15)) {
            AlcoholLevel::High
        } else if abv.less_than(&Ratio::whole(20)) {
            AlcoholLevel::VeryHigh
        } else {
            AlcoholLevel::ExtremelyHigh
        }
    }

    /// The words for this level.
    pub fn phrase(self) -> (p: &'static str)
        ensures
            p@ == self.text(),
    {
        match self {
            AlcoholLevel::ExtremelyLow => "extremely low",
            AlcoholLevel::VeryLow => "very low",
            AlcoholLevel::Low => "low",
            AlcoholLevel::Moderate => "moderate",
            AlcoholLevel::High => "high",
            AlcoholLevel::VeryHigh => "very high",
            AlcoholLevel::ExtremelyHigh => "extremely high",
        }
    }
}

} // verus!
