//! The growing climate and what it does to a must: its sugar, acidity and
//! tannin multipliers and the acidity it leaves in the wine.

use crate::ratio::Rational;
use crate::text::{same_text, unicode_lowercase};
use vstd::prelude::*;

verus! {

/// The climate the grapes grew in.
#[derive(Clone, Copy, Debug, PartialEq, Eq, Structural)]
pub enum Climate {
    Cool,
    Moderate,
    Warm,
    Unknown,
}

/// How acidic the wine is.
#[derive(Clone, Copy, Debug, PartialEq, Eq, Structural)]
pub enum Acidity {
    High,
    Moderate,
    Low,
    Unknown,
}

/// The multipliers of a climate, in percent.
#[derive(Clone, Copy, Debug, PartialEq, Eq)]
pub struct ClimateModifiers {
    pub sugar_percent: u32,
    /// Part of the climate table; no metric uses it, the acidity of the wine
    /// follows from the climate alone.
    pub acidity_percent: u32,
    pub tannin_percent: u32,
}

impl Climate {
    /// The climate that a lower-case name stands for.
    pub open spec fn named(lowercase_name: Seq<char>) -> Climate {
        if lowercase_name == "cool"@ {
            Climate::Cool
        } else if lowercase_name == "moderate"@ {
            Climate::Moderate
        } else if lowercase_name == "warm"@ {
            Climate::Warm
        } else {
            Climate::Unknown
        }
    }

    /// The sugar multiplier in percent.
    pub open spec fn sugar_percent(self) -> int {
        match self {
            Climate::Cool => 90,
            Climate::Moderate => 100,
            Climate::Warm => 110,
            Climate::Unknown => 100,
        }
    }

    /// The acidity multiplier in percent.
    pub open spec fn acidity_percent(self) -> int {
        match self {
            Climate::Cool => 110,
            Climate::Moderate => 100,
            Climate::Warm => 90,
            Climate::Unknown => 100,
        }
    }

    /// The tannin multiplier in percent.
    pub open spec fn tannin_percent(self) -> int {
        match self {
            Climate::Cool => 100,
            Climate::Moderate => 100,
            Climate::Warm => 110,
            Climate::Unknown => 100,
        }
    }

    /// The sugar multiplier as a fraction.
    pub open spec fn sugar_modifier(self) -> Rational {
        Rational { num: self.sugar_percent(), den: 100 }
    }

    /// The tannin multiplier as a fraction.
    pub open spec fn tannin_modifier(self) -> Rational {
        Rational { num: self.tannin_percent(), den: 100 }
    }

    /// The acidity that a climate leaves in the wine.
    pub open spec fn acidity_of(self) -> Acidity {
        match self {
            Climate::Cool => Acidity::High,
            Climate::Moderate => Acidity::Moderate,
            Climate::Warm => Acidity::Low,
            Climate::Unknown => Acidity::Unknown,
        }
    }

    /// The climate for a name that is already in lower case.
    pub fn from_lowercase(name: &str) -> (climate: Climate)
        ensures
            climate == Climate::named(name@),
    {
        if same_text(name, "cool") {
            Climate::Cool
        } else if same_text(name, "moderate") {
            Climate::Moderate
        } else if same_text(name, "warm") {
            Climate::Warm
        } else {
            Climate::Unknown
        }
    }

    /// The climate for a name in any letter case.
    pub fn from_name(name: &str) -> (climate: Climate)
        ensures
            climate == Climate::named(unicode_lowercase(name@)),
    {
        let lowered = name.to_lowercase();
        Climate::from_lowercase(lowered.as_str())
    }

    /// The multipliers of this climate.
    pub fn modifiers(self) -> (m: ClimateModifiers)
        ensures
            m.sugar_percent == self.sugar_percent(),
            m.acidity_percent == self.acidity_percent(),
            m.tannin_percent == self.tannin_percent(),
    {
        match self {
            Climate::Cool => ClimateModifiers {
                sugar_percent: 90,
                acidity_percent: 110,
                tannin_percent: 100,
            },
            Climate::Moderate => ClimateModifiers {
                sugar_percent: 100,
                acidity_percent: 100,
                tannin_percent: 100,
            },
            Climate::Warm => ClimateModifiers {
                sugar_percent: 110,
                acidity_percent: 90,
                tannin_percent: 110,
            },
            Climate::Unknown => ClimateModifiers {
                sugar_percent: 100,
                acidity_percent: 100,
                tannin_percent: 100,
            },
        }
    }

    /// The acidity that this climate leaves in the wine.
    pub fn acidity(self) -> (a: Acidity)
        ensures
            a == self.acidity_of(),
    {
        match self {
            Climate::Cool => Acidity::High,
            Climate::Moderate => Acidity::Moderate,
            Climate::Warm => Acidity::Low,
            Climate::Unknown => Acidity::Unknown,
        }
    }
}

impl Acidity {
    /// The word for this acidity.
    pub open spec fn text(self) -> Seq<char> {
        match self {
            Acidity::High => "high"@,
            Acidity::Moderate => "moderate"@,
            Acidity::Low => "low"@,
            Acidity::Unknown => "unknown"@,
        }
    }

    /// The word for this acidity.
    pub fn phrase(self) -> (p: &'static str)
        ensures
            p@ == self.text(),
    {
        match self {
            Acidity::High => "high",
            Acidity::Moderate => "moderate",
            Acidity::Low => "low",
            Acidity::Unknown => "unknown",
        }
    }
}

} // verus!
