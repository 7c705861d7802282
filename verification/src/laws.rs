//! What holds of every fermentation.

use crate::climate::Climate;
use crate::descriptors::{AlcoholLevel, Body, Sweetness};
use crate::fermentation::{
    abv_is_capped, actual_abv, effective_sugar, fraction_fermented, metrics, potential_abv,
    progress, progress_millionths, residual_sugar, sugar_hundredths, sugar_per_abv, uncapped_abv,
    ABV_CAP, FRACTION_SCALE,
};
use crate::flavor::{
    has_flavor, is_flavor_note, lists_matching_rows, row_matches, unknown_flavor, WineRecordModel,
};
use crate::numerals::{decimal_text, digit_text};
use crate::ratio::{order_respects_value, Rational};
use crate::text::{
    decimal_value, field_count, is_decimal_digit, is_decimal_number, is_white_space, parsed_i32,
    same_ignoring_ascii_case, trimmed, trimmed_end, trimmed_start,
};
use vstd::prelude::*;

verus! {

/// The climate table, by the name in lower case: a cool climate multiplies
/// the sugar by 0.90 and the tannins by 1.00, a moderate one both by 1.00,
/// a warm one both by 1.10, and any other name stands for 1.00 and 1.00.
pub proof fn climate_table(lowercase_name: Seq<char>)
    ensures
        lowercase_name == "cool"@ ==> Climate::named(lowercase_name) == Climate::Cool,
        lowercase_name == "moderate"@ ==> Climate::named(lowercase_name) == Climate::Moderate,
        lowercase_name == "warm"@ ==> Climate::named(lowercase_name) == Climate::Warm,
        lowercase_name != "cool"@ && lowercase_name != "moderate"@ && lowercase_name != "warm"@
            ==> Climate::named(lowercase_name) == Climate::Unknown,
        Climate::Cool.sugar_modifier() == (Rational { num: 90, den: 100 }),
        Climate::Cool.tannin_modifier() == (Rational { num: 100, den: 100 }),
        Climate::Moderate.sugar_modifier() == (Rational { num: 100, den: 100 }),
        Climate::Moderate.tannin_modifier() == (Rational { num: 100, den: 100 }),
        Climate::Warm.sugar_modifier() == (Rational { num: 110, den: 100 }),
        Climate::Warm.tannin_modifier() == (Rational { num: 110, den: 100 }),
        Climate::Unknown.sugar_modifier() == (Rational { num: 100, den: 100 }),
        Climate::Unknown.tannin_modifier() == (Rational { num: 100, den: 100 }),
{
    reveal_strlit("cool");
    reveal_strlit("moderate");
    reveal_strlit("warm");
    assert("cool"@.len() == 4 && "cool"@[0] == 'c');
    assert("moderate"@.len() == 8);
    assert("warm"@.len() == 4 && "warm"@[0] == 'w');
}

/// The effective sugar is the sugar of the must times the climate's sugar
/// multiplier.
pub proof fn effective_sugar_formula(sugar: u32, climate: Climate)
    ensures
        effective_sugar(sugar, climate).is_valid(),
        effective_sugar(sugar, climate).same_value(
            Rational::whole(sugar as int).times(climate.sugar_modifier()),
        ),
{
}

/// The potential alcohol by volume is the effective sugar over 16.83: the
/// sugar of the must times the climate's sugar multiplier, over 16.83.
pub proof fn potential_abv_formula(sugar: u32, climate: Climate)
    ensures
        potential_abv(sugar, climate).is_valid(),
        potential_abv(sugar, climate).same_value(
            effective_sugar(sugar, climate).over(sugar_per_abv()),
        ),
        potential_abv(sugar, climate).same_value(
            Rational::whole(sugar as int).times(climate.sugar_modifier()).over(sugar_per_abv()),
        ),
{
    let h = sugar_hundredths(sugar, climate);
    let left = potential_abv(sugar, climate);
    let by_sugar = effective_sugar(sugar, climate).over(sugar_per_abv());
    let by_must = Rational::whole(sugar as int).times(climate.sugar_modifier()).over(
        sugar_per_abv(),
    );
    assert(left.num == h && left.den == 1683);
    assert(by_sugar.num == h * 100 && by_sugar.den == 168300);
    assert(by_must.num == h * 100 && by_must.den == 168300);
    assert(left.num * by_sugar.den == by_sugar.num * left.den);
    assert(left.num * by_must.den == by_must.num * left.den);
}

/// The progress of the yeast is the part of the sugar that it would
/// consume, and never more than all of it.
pub proof fn progress_is_clamped(kinetic_millionths: u64)
    ensures
        progress(kinetic_millionths).is_valid(),
        Rational::whole(0).at_most(progress(kinetic_millionths)),
        progress(kinetic_millionths).at_most(Rational::whole(1)),
        kinetic_millionths <= FRACTION_SCALE ==> progress(kinetic_millionths) == (Rational {
            num: kinetic_millionths as int,
            den: FRACTION_SCALE as int,
        }),
        kinetic_millionths > FRACTION_SCALE ==> progress(kinetic_millionths).same_value(
            Rational::whole(1),
        ),
{
}

/// Before the cap, the alcohol by volume is the sugar consumed over 16.83,
/// the sugar consumed being the progress of the yeast times the effective
/// sugar.
pub proof fn uncapped_abv_formula(sugar: u32, climate: Climate, kinetic_millionths: u64)
    ensures
        uncapped_abv(sugar, climate, kinetic_millionths).is_valid(),
        uncapped_abv(sugar, climate, kinetic_millionths).same_value(
            progress(kinetic_millionths).times(effective_sugar(sugar, climate)).over(
                sugar_per_abv(),
            ),
        ),
{
    let f = progress_millionths(kinetic_millionths);
    let h = sugar_hundredths(sugar, climate);
    let left = uncapped_abv(sugar, climate, kinetic_millionths);
    let right = progress(kinetic_millionths).times(effective_sugar(sugar, climate)).over(
        sugar_per_abv(),
    );
    assert(left.num == f * h && left.den == 1_683_000_000);
    assert(right.num == (f * h) * 100 && right.den == 168_300_000_000);
    assert(left.num * right.den == right.num * left.den);
}

/// Where the alcohol by volume would exceed 15 percent, the wine has
/// exactly 15 percent, and the fraction fermented is the part of the
/// effective sugar that gives them: 15 times 16.83, over the effective
/// sugar.
pub proof fn cap_is_consistent(sugar: u32, climate: Climate, kinetic_millionths: u64)
    requires
        Rational::whole(15).less_than(uncapped_abv(sugar, climate, kinetic_millionths)),
    ensures
        actual_abv(sugar, climate, kinetic_millionths) == Rational::whole(15),
        effective_sugar(sugar, climate).num > 0,
        fraction_fermented(sugar, climate, kinetic_millionths).is_valid(),
        fraction_fermented(sugar, climate, kinetic_millionths).same_value(
            Rational::whole(15).times(sugar_per_abv()).over(effective_sugar(sugar, climate)),
        ),
{
    let f = progress_millionths(kinetic_millionths);
    let h = sugar_hundredths(sugar, climate);
    assert(h > 0) by (nonlinear_arith)
        requires
            f * h > 0,
            f >= 0,
    ;
    let left = fraction_fermented(sugar, climate, kinetic_millionths);
    let right = Rational::whole(15).times(sugar_per_abv()).over(effective_sugar(sugar, climate));
    assert(left.num == 25245 && left.den == h);
    assert(right.num == 2_524_500 && right.den == 100 * h);
    assert(left.num * right.den == right.num * left.den);
}

/// Where the alcohol by volume stays within 15 percent, it is the wine's,
/// and the fraction fermented is the progress of the yeast.
pub proof fn below_cap_nothing_changes(sugar: u32, climate: Climate, kinetic_millionths: u64)
    requires
        uncapped_abv(sugar, climate, kinetic_millionths).at_most(Rational::whole(15)),
    ensures
        actual_abv(sugar, climate, kinetic_millionths) == uncapped_abv(
            sugar,
            climate,
            kinetic_millionths,
        ),
        fraction_fermented(sugar, climate, kinetic_millionths) == progress(kinetic_millionths),
{
}

/// The wine never has more than 15 percent of alcohol by volume, nor more
/// than the sugar could give, and its alcohol level is never extremely high.
pub proof fn abv_is_bounded(sugar: u32, climate: Climate, kinetic_millionths: u64)
    ensures
        actual_abv(sugar, climate, kinetic_millionths).is_valid(),
        Rational::whole(0).at_most(actual_abv(sugar, climate, kinetic_millionths)),
        actual_abv(sugar, climate, kinetic_millionths).at_most(Rational::whole(ABV_CAP as int)),
        actual_abv(sugar, climate, kinetic_millionths).at_most(potential_abv(sugar, climate)),
        AlcoholLevel::classify(actual_abv(sugar, climate, kinetic_millionths))
            != AlcoholLevel::ExtremelyHigh,
{
    let f = progress_millionths(kinetic_millionths);
    let h = sugar_hundredths(sugar, climate);
    assert(0 <= f * h <= 1_000_000 * h) by (nonlinear_arith)
        requires
            0 <= f <= 1_000_000,
            0 <= h,
    ;
    if abv_is_capped(sugar, climate, kinetic_millionths) {
        assert(15 * 1683 * 1_000_000 < f * h);
    } else {
        assert((f * h) * 1683 == 1683 * (f * h));
    }
}

/// The alcohol by volume of the wine is the fraction fermented of the
/// potential alcohol by volume, capped or not.
pub proof fn abv_matches_fraction(sugar: u32, climate: Climate, kinetic_millionths: u64)
    ensures
        actual_abv(sugar, climate, kinetic_millionths).same_value(
            fraction_fermented(sugar, climate, kinetic_millionths).times(
                potential_abv(sugar, climate),
            ),
        ),
{
    let f = progress_millionths(kinetic_millionths);
    let h = sugar_hundredths(sugar, climate);
    let left = actual_abv(sugar, climate, kinetic_millionths);
    let right = fraction_fermented(sugar, climate, kinetic_millionths).times(
        potential_abv(sugar, climate),
    );
    if abv_is_capped(sugar, climate, kinetic_millionths) {
        assert(left.num == 15 && left.den == 1);
        assert(right.num == 25245 * h && right.den == h * 1683);
        assert(left.num * right.den == right.num * left.den) by (nonlinear_arith)
            requires
                left.num == 15 && left.den == 1,
                right.num == 25245 * h && right.den == h * 1683,
        ;
    } else {
        assert(left.num == f * h && left.den == 1_683_000_000);
        assert(right.num == f * h && right.den == 1_000_000 * 1683);
    }
}

/// The fraction fermented lies between 0 and 1.
pub proof fn fraction_is_a_share(sugar: u32, climate: Climate, kinetic_millionths: u64)
    ensures
        fraction_fermented(sugar, climate, kinetic_millionths).is_valid(),
        Rational::whole(0).at_most(fraction_fermented(sugar, climate, kinetic_millionths)),
        fraction_fermented(sugar, climate, kinetic_millionths).at_most(Rational::whole(1)),
{
    let f = progress_millionths(kinetic_millionths);
    let h = sugar_hundredths(sugar, climate);
    assert(0 <= f * h <= 1_000_000 * h) by (nonlinear_arith)
        requires
            0 <= f <= 1_000_000,
            0 <= h,
    ;
}

/// The residual sugar is the effective sugar less the sugar consumed, the
/// sugar consumed being the progress of the yeast times the effective sugar;
/// it is never negative.
pub proof fn residual_sugar_formula(sugar: u32, climate: Climate, kinetic_millionths: u64)
    ensures
        residual_sugar(sugar, climate, kinetic_millionths).is_valid(),
        residual_sugar(sugar, climate, kinetic_millionths).same_value(
            effective_sugar(sugar, climate).minus(
                progress(kinetic_millionths).times(effective_sugar(sugar, climate)),
            ),
        ),
        Rational::whole(0).at_most(residual_sugar(sugar, climate, kinetic_millionths)),
{
    let f = progress_millionths(kinetic_millionths);
    let h = sugar_hundredths(sugar, climate);
    let left = residual_sugar(sugar, climate, kinetic_millionths);
    let right = effective_sugar(sugar, climate).minus(
        progress(kinetic_millionths).times(effective_sugar(sugar, climate)),
    );
    assert(left.num == 1_000_000 * h - f * h && left.num >= 0) by (nonlinear_arith)
        requires
            left.num == h * (1_000_000 - f),
            0 <= f <= 1_000_000,
            0 <= h,
    ;
    assert(right.num == h * (1_000_000 * 100) - (f * h) * 100);
    assert(right.den == 100 * (1_000_000 * 100));
    assert(left.den == 100 * 1_000_000);
    assert(left.num * right.den == right.num * left.den) by (nonlinear_arith)
        requires
            left.num == 1_000_000 * h - f * h,
            right.num == h * (1_000_000 * 100) - (f * h) * 100,
            right.den == 100 * (1_000_000 * 100),
            left.den == 100 * 1_000_000,
    ;
}

/// Where the alcohol by volume stays within 15 percent, the residual sugar
/// is the effective sugar less the fraction fermented times the effective
/// sugar.
pub proof fn residual_sugar_matches_fraction(
    sugar: u32,
    climate: Climate,
    kinetic_millionths: u64,
)
    requires
        uncapped_abv(sugar, climate, kinetic_millionths).at_most(Rational::whole(15)),
    ensures
        residual_sugar(sugar, climate, kinetic_millionths).same_value(
            effective_sugar(sugar, climate).minus(
                fraction_fermented(sugar, climate, kinetic_millionths).times(
                    effective_sugar(sugar, climate),
                ),
            ),
        ),
{
    residual_sugar_formula(sugar, climate, kinetic_millionths);
}

/// Every quantity of the metrics is a valid fraction.
pub proof fn metrics_are_valid(sugar: u32, climate: Climate, kinetic_millionths: u64)
    ensures
        metrics(sugar, climate, kinetic_millionths).is_valid(),
{
    fraction_is_a_share(sugar, climate, kinetic_millionths);
    abv_is_bounded(sugar, climate, kinetic_millionths);
}

/// Two grape names that differ in ASCII letter case only find the same rows
/// of the flavor table, and so the same flavor notes.
pub proof fn lookup_ignores_ascii_case(
    table: Seq<WineRecordModel>,
    grape: Seq<char>,
    other: Seq<char>,
)
    requires
        same_ignoring_ascii_case(grape, other),
    ensures
        forall|i: int| row_matches(table, i, grape) == row_matches(table, i, other),
        has_flavor(table, grape) == has_flavor(table, other),
        forall|rows: Seq<usize>|
            lists_matching_rows(rows, table, grape) == lists_matching_rows(rows, table, other),
        forall|note: Seq<char>|
            is_flavor_note(table, grape, note) == is_flavor_note(table, other, note),
{
    assert forall|i: int| row_matches(table, i, grape) == row_matches(table, i, other) by {}
    assert(has_flavor(table, grape) == has_flavor(table, other)) by {
        if has_flavor(table, grape) {
            let i = choose|i: int| row_matches(table, i, grape);
            assert(row_matches(table, i, other));
        }
        if has_flavor(table, other) {
            let i = choose|i: int| row_matches(table, i, other);
            assert(row_matches(table, i, grape));
        }
    }
    assert forall|note: Seq<char>|
        is_flavor_note(table, grape, note) == is_flavor_note(table, other, note) by {
        if has_flavor(table, grape) {
            if is_flavor_note(table, grape, note) {
                let i = choose|i: int|
                    row_matches(table, i, grape) && note == table[i].characteristics;
                assert(row_matches(table, i, other) && note == table[i].characteristics);
            }
            if is_flavor_note(table, other, note) {
                let i = choose|i: int|
                    row_matches(table, i, other) && note == table[i].characteristics;
                assert(row_matches(table, i, grape) && note == table[i].characteristics);
            }
        }
    }
    assert forall|rows: Seq<usize>|
        lists_matching_rows(rows, table, grape) == lists_matching_rows(rows, table, other) by {
        if lists_matching_rows(rows, table, grape) {
            assert forall|i: int| #[trigger] row_matches(table, i, other) implies rows.contains(
                i as usize,
            ) by {
                assert(row_matches(table, i, grape));
            }
        }
        if lists_matching_rows(rows, table, other) {
            assert forall|i: int| #[trigger] row_matches(table, i, grape) implies rows.contains(
                i as usize,
            ) by {
                assert(row_matches(table, i, other));
            }
        }
    }
}

/// A flavor note is the characteristics of a row about the grape, or, for
/// a grape that the table does not hold, the note for an unknown grape.
pub proof fn flavor_note_comes_from_table(
    table: Seq<WineRecordModel>,
    grape: Seq<char>,
    note: Seq<char>,
)
    requires
        is_flavor_note(table, grape, note),
    ensures
        note == unknown_flavor() || exists|i: int|
            0 <= i < table.len() && same_ignoring_ascii_case(table[i].grape, grape) && note
                == #[trigger] table[i].characteristics,
        table.len() == 0 ==> note == unknown_flavor(),
{
    if has_flavor(table, grape) {
        let i = choose|i: int| row_matches(table, i, grape) && note == table[i].characteristics;
        assert(0 <= i < table.len() && same_ignoring_ascii_case(table[i].grape, grape) && note
            == table[i].characteristics);
    }
}

/// Sweetness, body and alcohol level depend on the number that a fraction
/// denotes, not on the fraction that denotes it.
pub proof fn descriptors_follow_the_value(a: Rational, b: Rational)
    requires
        a.is_valid(),
        b.is_valid(),
        a.same_value(b),
    ensures
        Sweetness::classify(a) == Sweetness::classify(b),
        Body::classify(a) == Body::classify(b),
        AlcoholLevel::classify(a) == AlcoholLevel::classify(b),
{
    order_respects_value(a, b, Rational::whole(35));
    order_respects_value(a, b, Rational::whole(20));
    order_respects_value(a, b, Rational::whole(5));
    order_respects_value(a, b, Rational::whole(12));
    order_respects_value(a, b, Rational::whole(10));
    order_respects_value(a, b, Rational::whole(1));
    order_respects_value(a, b, Rational { num: 27, den: 2 });
    order_respects_value(a, b, Rational::whole(15));
}

/// The numeral for a digit is that one digit.
proof fn digit_text_is_a_digit(digit: int)
    requires
        0 <= digit <= 9,
    ensures
        digit_text(digit).len() == 1,
        is_decimal_digit(digit_text(digit)[0]),
        digit_text(digit)[0] as u32 - '0' as u32 == digit,
        !is_white_space(digit_text(digit)[0]),
        digit_text(digit)[0] != '+',
        digit_text(digit)[0] != '-',
{
    reveal_strlit("0");
    reveal_strlit("1");
    reveal_strlit("2");
    reveal_strlit("3");
    reveal_strlit("4");
    reveal_strlit("5");
    reveal_strlit("6");
    reveal_strlit("7");
    reveal_strlit("8");
    reveal_strlit("9");
}

/// A natural number written out in decimal notation is a run of digits
/// that denotes the number.
pub proof fn decimal_text_denotes(n: nat)
    ensures
        is_decimal_number(decimal_text(n)),
        decimal_value(decimal_text(n)) == n,
    decreases n,
{
    let last = digit_text((n % 10) as int);
    digit_text_is_a_digit((n % 10) as int);
    if n < 10 {
        assert(decimal_text(n) == last);
        assert(last.drop_last().len() == 0);
        assert(decimal_value(last.drop_last()) == 0);
    } else {
        let front = decimal_text(n / 10);
        decimal_text_denotes(n / 10);
        let text = decimal_text(n);
        assert(text == front + last);
        assert(text.drop_last() =~= front);
        assert(text.last() == last[0]);
        assert forall|i: int| 0 <= i < text.len() implies is_decimal_digit(#[trigger] text[i]) by {
            if i < front.len() {
                assert(text[i] == front[i]);
            } else {
                assert(text[i] == last[0]);
            }
        }
    }
}

/// A count that the simulator writes out reads back as itself.
pub proof fn written_count_reads_back(count: u32)
    requires
        count <= i32::MAX,
    ensures
        field_count(decimal_text(count as nat)) == count,
{
    let text = decimal_text(count as nat);
    decimal_text_denotes(count as nat);
    assert(is_decimal_digit(text[0]));
    assert(is_decimal_digit(text[text.len() - 1]));
    assert(!is_white_space(text.first()));
    assert(trimmed_start(text) == text);
    assert(!is_white_space(text.last()));
    assert(trimmed_end(text) == text);
    assert(trimmed(text) == text);
    assert(parsed_i32(text) == Some(count as i32));
}

} // verus!
