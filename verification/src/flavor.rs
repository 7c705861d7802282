//! The flavor table: rows of grape and characteristics, looked up by grape
//! name without regard to ASCII case.

use crate::text::same_ignoring_ascii_case;
use rand::seq::IndexedRandom;
use vstd::prelude::*;

verus! {

/// One row of the flavor table.
#[derive(Clone, Debug, PartialEq, Eq)]
pub struct WineRecord {
    pub grape: String,
    pub characteristics: String,
}

/// The mathematical model of a [`WineRecord`].
pub struct WineRecordModel {
    pub grape: Seq<char>,
    pub characteristics: Seq<char>,
}

impl View for WineRecord {
    type V = WineRecordModel;

    open spec fn view(&self) -> WineRecordModel {
        WineRecordModel { grape: self.grape@, characteristics: self.characteristics@ }
    }
}

impl DeepView for WineRecord {
    type V = WineRecordModel;

    open spec fn deep_view(&self) -> WineRecordModel {
        self@
    }
}

/// The note for a grape that the table does not hold.
pub open spec fn unknown_flavor() -> Seq<char> {
    "unknown flavor profile"@
}

/// Whether row `i` of the table is about `grape`.
pub open spec fn row_matches(table: Seq<WineRecordModel>, i: int, grape: Seq<char>) -> bool {
    0 <= i < table.len() && same_ignoring_ascii_case(table[i].grape, grape)
}

/// Whether the table holds a row about `grape`.
pub open spec fn has_flavor(table: Seq<WineRecordModel>, grape: Seq<char>) -> bool {
    exists|i: int| row_matches(table, i, grape)
}

/// Whether `rows` lists the rows about `grape`: each of them once, in the
/// order of the table, and no other.
pub open spec fn lists_matching_rows(
    rows: Seq<usize>,
    table: Seq<WineRecordModel>,
    grape: Seq<char>,
) -> bool {
    &&& forall|k: int| 0 <= k < rows.len() ==> row_matches(table, #[trigger] rows[k] as int, grape)
    &&& forall|i: int| #[trigger] row_matches(table, i, grape) ==> rows.contains(i as usize)
    &&& forall|j: int, k: int| 0 <= j < k < rows.len() ==> rows[j] < rows[k]
}

/// Whether `note` is a flavor note for `grape`: the characteristics of one
/// of the rows about it, or, where there is no such row, the note for an
/// unknown grape.
pub open spec fn is_flavor_note(
    table: Seq<WineRecordModel>,
    grape: Seq<char>,
    note: Seq<char>,
) -> bool {
    if has_flavor(table, grape) {
        exists|i: int| row_matches(table, i, grape) && note == table[i].characteristics
    } else {
        note == unknown_flavor()
    }
}

/// The note that a pick stands for: the characteristics of the row picked,
/// or the note for an unknown grape where no row of the table was picked.
pub open spec fn note_at(table: Seq<WineRecordModel>, picked: Option<usize>) -> Seq<char> {
    match picked {
        Some(i) => if i < table.len() {
            table[i as int].characteristics
        } else {
            unknown_flavor()
        },
        None => unknown_flavor(),
    }
}

/// `rand::seq::IndexedRandom::choose` on a slice, with the generator of
/// `rand::rng`: `None` for an empty slice, otherwise one of its elements.
/// Which one is left open.
#[verifier::external_body]
fn choose_row(rows: &Vec<usize>) -> (picked: Option<usize>)
    ensures
        rows@.len() == 0 ==> picked is None,
        rows@.len() > 0 ==> picked is Some && rows@.contains(picked->0),
{
    rows.choose(&mut rand::rng()).copied()
}

/// The rows of the table that are about `grape`, in the order of the table.
pub fn matching_rows(table: &Vec<WineRecord>, grape: &str) -> (rows: Vec<usize>)
    ensures
        lists_matching_rows(rows@, table.deep_view(), grape@),
{
    let mut rows: Vec<usize> = Vec::new();
    let mut i: usize = 0;
    while i < table.len()
        invariant
            i <= table.len(),
            lists_matching_rows(rows@, table.deep_view().take(i as int), grape@),
            forall|k: int| 0 <= k < rows.len() ==> rows[k] < i,
        decreases table.len() - i,
    {
        let ghost before = rows@;
        let ghost shorter = table.deep_view().take(i as int);
        let ghost longer = table.deep_view().take(i + 1);
        assert(forall|j: int| 0 <= j < i ==> shorter[j] == longer[j]);
        assert(longer[i as int] == table[i as int]@);
        if table[i].grape.as_str().eq_ignore_ascii_case(grape) {
            rows.push(i);
            assert(forall|k: int| 0 <= k < before.len() ==> rows@[k] == before[k]);
            assert(rows@[before.len() as int] == i);
            assert forall|j: int| #[trigger] row_matches(longer, j, grape@) implies rows@.contains(
                j as usize,
            ) by {
                if j < i {
                    assert(row_matches(shorter, j, grape@));
                    let k = choose|k: int| 0 <= k < before.len() && before[k] == j as usize;
                    assert(rows@[k] == j as usize);
                } else {
                    assert(rows@[before.len() as int] == j as usize);
                }
            }
            assert forall|k: int| 0 <= k < rows@.len() implies row_matches(
                longer,
                #[trigger] rows@[k] as int,
                grape@,
            ) by {
                if k < before.len() {
                    assert(row_matches(shorter, before[k] as int, grape@));
                }
            }
        } else {
            assert forall|j: int| #[trigger] row_matches(longer, j, grape@) implies rows@.contains(
                j as usize,
            ) by {
                assert(row_matches(shorter, j, grape@));
            }
            assert forall|k: int| 0 <= k < rows@.len() implies row_matches(
                longer,
                #[trigger] rows@[k] as int,
                grape@,
            ) by {
                assert(row_matches(shorter, before[k] as int, grape@));
            }
        }
        i += 1;
    }
    assert(table.deep_view().take(i as int) == table.deep_view());
    rows
}

/// The note that a pick stands for.
pub fn note_for(table: &Vec<WineRecord>, picked: Option<usize>) -> (note: String)
    ensures
        note@ == note_at(table.deep_view(), picked),
{
    match picked {
        Some(i) => if i < table.len() {
            table[i].characteristics.clone()
        } else {
            "unknown flavor profile".to_owned()
        },
        None => "unknown flavor profile".to_owned(),
    }
}

/// A flavor note for `grape`: where the table holds rows about it, the
/// characteristics of one of them, chosen at random.
pub fn flavor_note(table: &Vec<WineRecord>, grape: &str) -> (note: String)
    ensures
        is_flavor_note(table.deep_view(), grape@, note@),
{
    let rows = matching_rows(table, grape);
    let picked = choose_row(&rows);
    proof {
        let model = table.deep_view();
        if rows@.len() > 0 {
            let k = choose|k: int| 0 <= k < rows@.len() && rows@[k] == picked->0;
            assert(row_matches(model, rows@[k] as int, grape@));
        } else if has_flavor(model, grape@) {
            let i = choose|i: int| row_matches(model, i, grape@);
            assert(rows@.contains(i as usize));
        }
    }
    note_for(table, picked)
}

} // verus!
