use vstd::prelude::*;
use crate::scenario::Scenario;

verus! {

/// Column of a training record that holds the plane's seats.
pub const SEATS_COLUMN: usize = 1;

/// Number of columns that a training record must have.
pub const RECORD_WIDTH: usize = 8;

/// Number of features, and so of coefficients, of the surface model: the
/// constant, the seats, the size ratio, its square and the directness.
pub const FEATURE_COUNT: usize = 5;

/// Column of a training record that holds the point sum observed for a
/// scenario: the columns after the seats go by size ratio, and for each
/// ratio the stopover comes before the direct flight.
pub open spec fn target_column_spec(scenario: Scenario) -> int {
    2 * scenario.ratio() + if scenario.direct() {
        1int
    } else {
        0int
    }
}

/// Column of a training record that holds the point sum observed for
/// `scenario`.
pub fn target_column(scenario: Scenario) -> (column: usize)
    ensures
        column == target_column_spec(scenario),
        SEATS_COLUMN < column < RECORD_WIDTH,
{
    match scenario {
        Scenario::StopoverSame => 2,
        Scenario::DirectSame => 3,
        Scenario::StopoverTwice => 4,
        Scenario::DirectTwice => 5,
        Scenario::StopoverThrice => 6,
        Scenario::DirectThrice => 7,
    }
}

/// Whether `rows` observations determine the coefficients of the surface
/// model: there have to be more observations than coefficients.
pub fn is_well_posed(rows: usize) -> (ok: bool)
    ensures
        ok == (rows > FEATURE_COUNT),
{
    rows > FEATURE_COUNT
}

/// The target columns follow the seats column in the order of
/// `Scenario::all_spec()`, one column for each scenario, and fill the
/// record.
pub proof fn lemma_columns_follow_scenarios()
    ensures
        Scenario::all_spec().len() + SEATS_COLUMN + 1 == RECORD_WIDTH,
        forall|i: int|
            0 <= i < 6 ==> target_column_spec(#[trigger] Scenario::all_spec()[i]) == SEATS_COLUMN
                + 1 + i,
{
}

} // verus!
