//! The `pg_statistic` row that the extension dumps, edits and loads, and
//! the rules by which one statistic of it is replaced.
//!
//! A row has five slots. Each slot holds one kind of statistic (its
//! `stakind`), with its `stanumbers` and `stavalues` arrays kept as JSON
//! text (`"null"` where the array is absent). An edit of a slot statistic
//! goes to the first slot whose kind is the statistic's kind.

use vstd::prelude::*;
use crate::stavalues::{
    json_i32_array, json_i64_array,
    histogram_outcome, pending_view, values_length_outcome, verify_histogram,
    verify_stavalues, FloatCheck, FloatCheckView, ValuesError,
};
use crate::text::{decimal_i32, decimal_text, law_decimal_round_trip, parse_i32, str_eq};

verus! {

/// Slot kind: most common values.
pub const STATISTIC_KIND_MCV: i16 = 1;
/// Slot kind: histogram of the column's values.
pub const STATISTIC_KIND_HISTOGRAM: i16 = 2;
/// Slot kind: correlation between physical and logical order.
pub const STATISTIC_KIND_CORRELATION: i16 = 3;
/// Slot kind: most common elements (array columns).
pub const STATISTIC_KIND_MCELEM: i16 = 4;
/// Slot kind: histogram of distinct element counts (array columns).
pub const STATISTIC_KIND_DECHIST: i16 = 5;
/// Slot kind: histogram of range lengths (range columns).
pub const STATISTIC_KIND_RANGE_LENGTH_HISTOGRAM: i16 = 6;
/// Slot kind: histogram of range bounds (range columns).
pub const STATISTIC_KIND_BOUNDS_HISTOGRAM: i16 = 7;

/// The number of statistic slots in a `pg_statistic` row.
pub const NUM_SLOTS: usize = 5;

/// One statistic slot: `stakindN`, `staopN`, `stacollN`, `stanumbersN` and
/// `stavaluesN` of a `pg_statistic` row.
pub struct StatSlot {
    pub kind: i16,
    pub op: u32,
    pub coll: u32,
    /// JSON text of the `stanumbers` array, `"null"` when absent.
    pub numbers: String,
    /// Element type of the `stavalues` array.
    pub values_type: u32,
    /// JSON text of the `stavalues` array, `"null"` when absent.
    pub values: String,
}

/// The mathematical content of a [`StatSlot`].
pub struct StatSlotView {
    pub kind: i16,
    pub op: u32,
    pub coll: u32,
    pub numbers: Seq<char>,
    pub values_type: u32,
    pub values: Seq<char>,
}

impl View for StatSlot {
    type V = StatSlotView;

    open spec fn view(&self) -> StatSlotView {
        StatSlotView {
            kind: self.kind,
            op: self.op,
            coll: self.coll,
            numbers: self.numbers@,
            values_type: self.values_type,
            values: self.values@,
        }
    }
}

/// A `pg_statistic` row. The two floating-point columns are held as the
/// IEEE-754 bit patterns of their `f32` values.
pub struct PgStatisticRow {
    pub starelid: u32,
    pub staattnum: i16,
    pub stainherit: bool,
    pub stanullfrac_bits: u32,
    pub stawidth: i32,
    pub stadistinct_bits: u32,
    /// The five statistic slots, in column order.
    pub slots: Vec<StatSlot>,
}

/// The mathematical content of a [`PgStatisticRow`].
#[verifier::ext_equal]
pub struct PgStatisticRowView {
    pub starelid: u32,
    pub staattnum: i16,
    pub stainherit: bool,
    pub stanullfrac_bits: u32,
    pub stawidth: i32,
    pub stadistinct_bits: u32,
    pub slots: Seq<StatSlotView>,
}

impl View for PgStatisticRow {
    type V = PgStatisticRowView;

    open spec fn view(&self) -> PgStatisticRowView {
        PgStatisticRowView {
            starelid: self.starelid,
            staattnum: self.staattnum,
            stainherit: self.stainherit,
            stanullfrac_bits: self.stanullfrac_bits,
            stawidth: self.stawidth,
            stadistinct_bits: self.stadistinct_bits,
            slots: self.slots@.map_values(|s: StatSlot| s@),
        }
    }
}

impl PgStatisticRow {
    /// A row has exactly five slots.
    pub open spec fn wf(&self) -> bool {
        self.slots@.len() == NUM_SLOTS
    }
}

/// The statistic that an edit replaces, named as the caller names it.
#[derive(Debug, Clone, Copy, PartialEq, Eq, Structural)]
pub enum StatisticTarget {
    NullFrac,
    Width,
    Distinct,
    MostCommonValues,
    Histogram,
    Correlation,
    MostCommonElement,
    DistinctElementHistogram,
    RangeLengthHistogram,
    KindBoundsHistogram,
}

/// The name by which a caller asks for each statistic.
pub open spec fn target_name(t: StatisticTarget) -> Seq<char> {
    match t {
        StatisticTarget::NullFrac => "NULLFRAC"@,
        StatisticTarget::Width => "WIDTH"@,
        StatisticTarget::Distinct => "DISTINCT"@,
        StatisticTarget::MostCommonValues => "MOST COMMON VALUES"@,
        StatisticTarget::Histogram => "HISTOGRAM"@,
        StatisticTarget::Correlation => "CORRELATION"@,
        StatisticTarget::MostCommonElement => "MOST COMMON ELEMENT"@,
        StatisticTarget::DistinctElementHistogram => "DISTINCT ELEMENT HISTOGRAM"@,
        StatisticTarget::RangeLengthHistogram => "RANGE LENGTH HISTOGRAM"@,
        StatisticTarget::KindBoundsHistogram => "KIND BOUNDS HISTOGRAM"@,
    }
}

/// The statistic a name asks for; `None` for a name that is none of them.
pub open spec fn spec_statistic_target(name: Seq<char>) -> Option<StatisticTarget> {
    if name == "NULLFRAC"@ {
        Some(StatisticTarget::NullFrac)
    } else if name == "WIDTH"@ {
        Some(StatisticTarget::Width)
    } else if name == "DISTINCT"@ {
        Some(StatisticTarget::Distinct)
    } else if name == "MOST COMMON VALUES"@ {
        Some(StatisticTarget::MostCommonValues)
    } else if name == "HISTOGRAM"@ {
        Some(StatisticTarget::Histogram)
    } else if name == "CORRELATION"@ {
        Some(StatisticTarget::Correlation)
    } else if name == "MOST COMMON ELEMENT"@ {
        Some(StatisticTarget::MostCommonElement)
    } else if name == "DISTINCT ELEMENT HISTOGRAM"@ {
        Some(StatisticTarget::DistinctElementHistogram)
    } else if name == "RANGE LENGTH HISTOGRAM"@ {
        Some(StatisticTarget::RangeLengthHistogram)
    } else if name == "KIND BOUNDS HISTOGRAM"@ {
        Some(StatisticTarget::KindBoundsHistogram)
    } else {
        None
    }
}

/// Reads the name of the statistic to replace.
pub fn parse_statistic_target(name: &str) -> (r: Option<StatisticTarget>)
    ensures
        r == spec_statistic_target(name@),
{
    if str_eq(name, "NULLFRAC") {
        Some(StatisticTarget::NullFrac)
    } else if str_eq(name, "WIDTH") {
        Some(StatisticTarget::Width)
    } else if str_eq(name, "DISTINCT") {
        Some(StatisticTarget::Distinct)
    } else if str_eq(name, "MOST COMMON VALUES") {
        Some(StatisticTarget::MostCommonValues)
    } else if str_eq(name, "HISTOGRAM") {
        Some(StatisticTarget::Histogram)
    } else if str_eq(name, "CORRELATION") {
        Some(StatisticTarget::Correlation)
    } else if str_eq(name, "MOST COMMON ELEMENT") {
        Some(StatisticTarget::MostCommonElement)
    } else if str_eq(name, "DISTINCT ELEMENT HISTOGRAM") {
        Some(StatisticTarget::DistinctElementHistogram)
    } else if str_eq(name, "RANGE LENGTH HISTOGRAM") {
        Some(StatisticTarget::RangeLengthHistogram)
    } else if str_eq(name, "KIND BOUNDS HISTOGRAM") {
        Some(StatisticTarget::KindBoundsHistogram)
    } else {
        None
    }
}

/// The slot kind that holds a statistic; `None` for the three statistics
/// that are columns of the row itself.
pub open spec fn slot_kind(t: StatisticTarget) -> Option<i16> {
    match t {
        StatisticTarget::MostCommonValues => Some(STATISTIC_KIND_MCV),
        StatisticTarget::Histogram => Some(STATISTIC_KIND_HISTOGRAM),
        StatisticTarget::Correlation => Some(STATISTIC_KIND_CORRELATION),
        StatisticTarget::MostCommonElement => Some(STATISTIC_KIND_MCELEM),
        StatisticTarget::DistinctElementHistogram => Some(STATISTIC_KIND_DECHIST),
        StatisticTarget::RangeLengthHistogram => Some(STATISTIC_KIND_RANGE_LENGTH_HISTOGRAM),
        StatisticTarget::KindBoundsHistogram => Some(STATISTIC_KIND_BOUNDS_HISTOGRAM),
        _ => None,
    }
}

/// A replacement of one statistic, with the new data it brings.
///
/// The floating-point inputs are prepared by the caller: the new null
/// fraction and distinct count as `f32` bit patterns, and for the most
/// common values the number of frequencies in `stanumbers`.
pub enum StatisticEdit {
    NullFrac { bits: u32 },
    /// `text` is read as an `i32`.
    Width { text: String },
    Distinct { bits: u32 },
    MostCommonValues { stanumbers: String, stanumbers_len: usize, stavalues: String },
    Histogram { stavalues: String },
    Correlation { stanumbers: String },
    MostCommonElement { stanumbers: String, stavalues: String },
    DistinctElementHistogram { stanumbers: String },
    RangeLengthHistogram { stanumbers: String, stavalues: String },
    KindBoundsHistogram { stavalues: String },
}

/// The statistic an edit replaces.
pub open spec fn edit_target(e: StatisticEdit) -> StatisticTarget {
    match e {
        StatisticEdit::NullFrac { .. } => StatisticTarget::NullFrac,
        StatisticEdit::Width { .. } => StatisticTarget::Width,
        StatisticEdit::Distinct { .. } => StatisticTarget::Distinct,
        StatisticEdit::MostCommonValues { .. } => StatisticTarget::MostCommonValues,
        StatisticEdit::Histogram { .. } => StatisticTarget::Histogram,
        StatisticEdit::Correlation { .. } => StatisticTarget::Correlation,
        StatisticEdit::MostCommonElement { .. } => StatisticTarget::MostCommonElement,
        StatisticEdit::DistinctElementHistogram { .. } => StatisticTarget::DistinctElementHistogram,
        StatisticEdit::RangeLengthHistogram { .. } => StatisticTarget::RangeLengthHistogram,
        StatisticEdit::KindBoundsHistogram { .. } => StatisticTarget::KindBoundsHistogram,
    }
}

/// Why an edit was refused.
#[derive(Debug, Clone, Copy, PartialEq, Eq, Structural)]
pub enum ModifyError {
    /// The new width is not an `i32`.
    InvalidWidth,
    /// No slot of the row holds the statistic.
    NotAStatistic(StatisticTarget),
    /// The new `stavalues` were refused.
    Values(ValuesError),
}

/// The message with which a refused edit is answered.
pub open spec fn modify_error_text(e: ModifyError) -> Seq<char> {
    match e {
        ModifyError::InvalidWidth => "Width must be an integer"@,
        ModifyError::NotAStatistic(t) => match t {
            StatisticTarget::MostCommonValues => "MCV is not a statistic for this column"@,
            StatisticTarget::Histogram => "Histograms are not a statistic for this column"@,
            StatisticTarget::Correlation => "Correlation is not a statistic for this column"@,
            StatisticTarget::MostCommonElement => "Range length histogram is not a statistic for this column"@,
            StatisticTarget::DistinctElementHistogram =>
                "Disticnt element histogram is not a statistic for this column"@,
            StatisticTarget::RangeLengthHistogram =>
                "Range length histogram is not a statistic for this column"@,
            StatisticTarget::KindBoundsHistogram =>
                "Disticnt element histogram is not a statistic for this column"@,
            _ => "Bad attribute"@,
        },
        ModifyError::Values(v) => match v {
            ValuesError::InvalidJson => "stavalues is not an array of the column's type"@,
            ValuesError::LengthMismatch => "stanum and stavalues have different lengths"@,
            ValuesError::UnsupportedType => "Unsupported type"@,
            ValuesError::EmptyHistogram => "Histogram must have at least one bound"@,
            ValuesError::NotIncreasing => "Histogram bounds must be strictly increasing"@,
        },
    }
}

/// The message with which a refused edit is answered.
pub fn modify_error_message(e: ModifyError) -> (r: &'static str)
    ensures
        r@ == modify_error_text(e),
{
    match e {
        ModifyError::InvalidWidth => "Width must be an integer",
        ModifyError::NotAStatistic(t) => match t {
            StatisticTarget::MostCommonValues => "MCV is not a statistic for this column",
            StatisticTarget::Histogram => "Histograms are not a statistic for this column",
            StatisticTarget::Correlation => "Correlation is not a statistic for this column",
            StatisticTarget::MostCommonElement => "Range length histogram is not a statistic for this column",
            StatisticTarget::DistinctElementHistogram =>
                "Disticnt element histogram is not a statistic for this column",
            StatisticTarget::RangeLengthHistogram =>
                "Range length histogram is not a statistic for this column",
            StatisticTarget::KindBoundsHistogram =>
                "Disticnt element histogram is not a statistic for this column",
            _ => "Bad attribute",
        },
        ModifyError::Values(v) => match v {
            ValuesError::InvalidJson => "stavalues is not an array of the column's type",
            ValuesError::LengthMismatch => "stanum and stavalues have different lengths",
            ValuesError::UnsupportedType => "Unsupported type",
            ValuesError::EmptyHistogram => "Histogram must have at least one bound",
            ValuesError::NotIncreasing => "Histogram bounds must be strictly increasing",
        },
    }
}

/// The index of the first slot, from `i` on, whose kind is `kind`.
pub open spec fn find_kind_from(slots: Seq<StatSlotView>, kind: i16, i: int) -> Option<int>
    decreases slots.len() - i,
{
    if i < 0 || i >= slots.len() {
        None
    } else if slots[i].kind == kind {
        Some(i)
    } else {
        find_kind_from(slots, kind, i + 1)
    }
}

/// The index of the first slot whose kind is `kind`.
pub open spec fn first_slot_with_kind(slots: Seq<StatSlotView>, kind: i16) -> Option<int> {
    find_kind_from(slots, kind, 0)
}

/// The row with slot `k` replaced.
pub open spec fn with_slot(row: PgStatisticRowView, k: int, slot: StatSlotView) -> PgStatisticRowView {
    PgStatisticRowView { slots: row.slots.update(k, slot), ..row }
}

/// Slot `k` of the row with its numbers and values replaced where given.
pub open spec fn refill_slot(
    row: PgStatisticRowView,
    k: int,
    numbers: Option<Seq<char>>,
    values: Option<Seq<char>>,
) -> PgStatisticRowView {
    let s = row.slots[k];
    with_slot(
        row,
        k,
        StatSlotView {
            numbers: match numbers {
                Some(n) => n,
                None => s.numbers,
            },
            values: match values {
                Some(v) => v,
                None => s.values,
            },
            ..s
        },
    )
}

/// The outcome of replacing a slot statistic of kind `kind` with the given
/// numbers and values, once the values have been judged by `check`.
pub open spec fn slot_outcome(
    row: PgStatisticRowView,
    target: StatisticTarget,
    kind: i16,
    numbers: Option<Seq<char>>,
    values: Option<Seq<char>>,
    check: spec_fn(u32) -> Result<Option<FloatCheckView>, ValuesError>,
) -> Result<(PgStatisticRowView, Option<FloatCheckView>), ModifyError> {
    match first_slot_with_kind(row.slots, kind) {
        None => Err(ModifyError::NotAStatistic(target)),
        Some(k) => match check(row.slots[k].values_type) {
            Err(e) => Err(ModifyError::Values(e)),
            Ok(c) => Ok((refill_slot(row, k, numbers, values), c)),
        },
    }
}

/// What an edit makes of a row: the new row and the check on
/// floating-point values that is still to run, or why it was refused.
pub open spec fn modify_outcome(row: PgStatisticRowView, edit: StatisticEdit) -> Result<
    (PgStatisticRowView, Option<FloatCheckView>),
    ModifyError,
> {
    let no_check = |t: u32| Ok::<Option<FloatCheckView>, ValuesError>(None);
    match edit {
        StatisticEdit::NullFrac { bits } => Ok((PgStatisticRowView { stanullfrac_bits: bits, ..row }, None)),
        StatisticEdit::Width { text } => match decimal_i32(text@) {
            Some(w) => Ok((PgStatisticRowView { stawidth: w, ..row }, None)),
            None => Err(ModifyError::InvalidWidth),
        },
        StatisticEdit::Distinct { bits } => Ok((PgStatisticRowView { stadistinct_bits: bits, ..row }, None)),
        StatisticEdit::MostCommonValues { stanumbers, stanumbers_len, stavalues } => slot_outcome(
            row,
            StatisticTarget::MostCommonValues,
            STATISTIC_KIND_MCV,
            Some(stanumbers@),
            Some(stavalues@),
            |t: u32| values_length_outcome(t, stavalues@, stanumbers_len),
        ),
        StatisticEdit::Histogram { stavalues } => slot_outcome(
            row,
            StatisticTarget::Histogram,
            STATISTIC_KIND_HISTOGRAM,
            None,
            Some(stavalues@),
            |t: u32| histogram_outcome(t, stavalues@),
        ),
        StatisticEdit::Correlation { stanumbers } => slot_outcome(
            row,
            StatisticTarget::Correlation,
            STATISTIC_KIND_CORRELATION,
            Some(stanumbers@),
            None,
            no_check,
        ),
        StatisticEdit::MostCommonElement { stanumbers, stavalues } => slot_outcome(
            row,
            StatisticTarget::MostCommonElement,
            STATISTIC_KIND_MCELEM,
            Some(stanumbers@),
            Some(stavalues@),
            no_check,
        ),
        StatisticEdit::DistinctElementHistogram { stanumbers } => slot_outcome(
            row,
            StatisticTarget::DistinctElementHistogram,
            STATISTIC_KIND_DECHIST,
            Some(stanumbers@),
            None,
            no_check,
        ),
        StatisticEdit::RangeLengthHistogram { stanumbers, stavalues } => slot_outcome(
            row,
            StatisticTarget::RangeLengthHistogram,
            STATISTIC_KIND_RANGE_LENGTH_HISTOGRAM,
            Some(stanumbers@),
            Some(stavalues@),
            no_check,
        ),
        StatisticEdit::KindBoundsHistogram { stavalues } => slot_outcome(
            row,
            StatisticTarget::KindBoundsHistogram,
            STATISTIC_KIND_BOUNDS_HISTOGRAM,
            None,
            Some(stavalues@),
            no_check,
        ),
    }
}

/// The view of the result of [`pg_statistic_modify`].
pub open spec fn modify_result_view(r: Result<(PgStatisticRow, Option<FloatCheck>), ModifyError>) -> Result<
    (PgStatisticRowView, Option<FloatCheckView>),
    ModifyError,
> {
    match r {
        Ok((row, c)) => Ok((row@, pending_view(c))),
        Err(e) => Err(e),
    }
}

/// Finds the first slot whose kind is `kind`.
pub fn find_slot(slots: &Vec<StatSlot>, kind: i16) -> (r: Option<usize>)
    ensures
        r matches Some(k) ==> first_slot_with_kind(slots@.map_values(|s: StatSlot| s@), kind) == Some(
            k as int,
        ),
        r is None ==> first_slot_with_kind(slots@.map_values(|s: StatSlot| s@), kind) is None,
        r matches Some(k) ==> k < slots@.len(),
{
    let ghost sv = slots@.map_values(|s: StatSlot| s@);
    let mut i: usize = 0;
    while i < slots.len()
        invariant
            i <= slots@.len(),
            sv == slots@.map_values(|s: StatSlot| s@),
            find_kind_from(sv, kind, 0) == find_kind_from(sv, kind, i as int),
        decreases slots@.len() - i,
    {
        if slots[i].kind == kind {
            assert(sv[i as int].kind == kind);
            return Some(i);
        }
        assert(find_kind_from(sv, kind, i as int) == find_kind_from(sv, kind, i + 1));
        i = i + 1;
    }
    None
}

/// The characters of an optional text.
pub open spec fn text_view(t: Option<String>) -> Option<Seq<char>> {
    match t {
        Some(s) => Some(s@),
        None => None,
    }
}

/// Replaces the numbers and values of slot `k` where new ones are given.
fn refill(row: &mut PgStatisticRow, k: usize, numbers: Option<String>, values: Option<String>)
    requires
        old(row).wf(),
        k < NUM_SLOTS,
    ensures
        final(row).wf(),
        final(row)@ == refill_slot(old(row)@, k as int, text_view(numbers), text_view(values)),
{
    let ghost expected = refill_slot(row@, k as int, text_view(numbers), text_view(values));
    let old_slot = row.slots.remove(k);
    let new_numbers = match numbers {
        Some(n) => n,
        None => old_slot.numbers,
    };
    let new_values = match values {
        Some(v) => v,
        None => old_slot.values,
    };
    let new_slot = StatSlot {
        kind: old_slot.kind,
        op: old_slot.op,
        coll: old_slot.coll,
        numbers: new_numbers,
        values_type: old_slot.values_type,
        values: new_values,
    };
    row.slots.insert(k, new_slot);
    assert(row@.slots =~= expected.slots);
    assert(row@ =~= expected);
}

/// Replaces one statistic of a `pg_statistic` row.
///
/// The null fraction, width and distinct count are columns of the row. A
/// slot statistic goes to the first slot whose kind is the statistic's
/// kind; that slot's `stanumbers` and/or `stavalues` are replaced and
/// nothing else in the row changes. New integer `stavalues` are checked
/// here; for floating-point ones the check to run is returned with the row.
pub fn pg_statistic_modify(row: PgStatisticRow, edit: StatisticEdit) -> (r: Result<
    (PgStatisticRow, Option<FloatCheck>),
    ModifyError,
>)
    requires
        row.wf(),
    ensures
        modify_result_view(r) == modify_outcome(row@, edit),
        r matches Ok((new_row, _)) ==> new_row.wf(),
{
    let mut row = row;
    match edit {
        StatisticEdit::NullFrac { bits } => {
            row.stanullfrac_bits = bits;
            Ok((row, None))
        },
        StatisticEdit::Width { text } => match parse_i32(text.as_str()) {
            Some(w) => {
                row.stawidth = w;
                Ok((row, None))
            },
            None => Err(ModifyError::InvalidWidth),
        },
        StatisticEdit::Distinct { bits } => {
            row.stadistinct_bits = bits;
            Ok((row, None))
        },
        StatisticEdit::MostCommonValues { stanumbers, stanumbers_len, stavalues } => {
            match find_slot(&row.slots, STATISTIC_KIND_MCV) {
                None => Err(ModifyError::NotAStatistic(StatisticTarget::MostCommonValues)),
                Some(k) => {
                    let typ = row.slots[k].values_type;
                    match verify_stavalues(typ, stavalues.as_str(), stanumbers_len) {
                        Err(e) => Err(ModifyError::Values(e)),
                        Ok(c) => {
                            refill(&mut row, k, Some(stanumbers), Some(stavalues));
                            Ok((row, c))
                        },
                    }
                },
            }
        },
        StatisticEdit::Histogram { stavalues } => {
            match find_slot(&row.slots, STATISTIC_KIND_HISTOGRAM) {
                None => Err(ModifyError::NotAStatistic(StatisticTarget::Histogram)),
                Some(k) => {
                    let typ = row.slots[k].values_type;
                    match verify_histogram(typ, stavalues.as_str()) {
                        Err(e) => Err(ModifyError::Values(e)),
                        Ok(c) => {
                            refill(&mut row, k, None, Some(stavalues));
                            Ok((row, c))
                        },
                    }
                },
            }
        },
        StatisticEdit::Correlation { stanumbers } => {
            match find_slot(&row.slots, STATISTIC_KIND_CORRELATION) {
                None => Err(ModifyError::NotAStatistic(StatisticTarget::Correlation)),
                Some(k) => {
                    refill(&mut row, k, Some(stanumbers), None);
                    Ok((row, None))
                },
            }
        },
        StatisticEdit::MostCommonElement { stanumbers, stavalues } => {
            match find_slot(&row.slots, STATISTIC_KIND_MCELEM) {
                None => Err(ModifyError::NotAStatistic(StatisticTarget::MostCommonElement)),
                Some(k) => {
                    refill(&mut row, k, Some(stanumbers), Some(stavalues));
                    Ok((row, None))
                },
            }
        },
        StatisticEdit::DistinctElementHistogram { stanumbers } => {
            match find_slot(&row.slots, STATISTIC_KIND_DECHIST) {
                None => Err(ModifyError::NotAStatistic(StatisticTarget::DistinctElementHistogram)),
                Some(k) => {
                    refill(&mut row, k, Some(stanumbers), None);
                    Ok((row, None))
                },
            }
        },
        StatisticEdit::RangeLengthHistogram { stanumbers, stavalues } => {
            match find_slot(&row.slots, STATISTIC_KIND_RANGE_LENGTH_HISTOGRAM) {
                None => Err(ModifyError::NotAStatistic(StatisticTarget::RangeLengthHistogram)),
                Some(k) => {
                    refill(&mut row, k, Some(stanumbers), Some(stavalues));
                    Ok((row, None))
                },
            }
        },
        StatisticEdit::KindBoundsHistogram { stavalues } => {
            match find_slot(&row.slots, STATISTIC_KIND_BOUNDS_HISTOGRAM) {
                None => Err(ModifyError::NotAStatistic(StatisticTarget::KindBoundsHistogram)),
                Some(k) => {
                    refill(&mut row, k, None, Some(stavalues));
                    Ok((row, None))
                },
            }
        },
    }
}


/// The slot search finds the first slot of the kind: it has the kind and
/// no slot before it has; and it finds none only when no slot has the kind.
pub proof fn lemma_find_kind_from(slots: Seq<StatSlotView>, kind: i16, i: int)
    requires
        0 <= i,
    ensures
        find_kind_from(slots, kind, i) matches Some(k) ==> {
            &&& i <= k < slots.len()
            &&& slots[k].kind == kind
            &&& forall|j: int| i <= j < k ==> slots[j].kind != kind
        },
        find_kind_from(slots, kind, i) is None ==> forall|j: int|
            i <= j < slots.len() ==> slots[j].kind != kind,
    decreases slots.len() - i,
{
    if i < slots.len() && slots[i].kind != kind {
        lemma_find_kind_from(slots, kind, i + 1);
    }
}

/// Every statistic is asked for by its own name: reading the name of a
/// statistic gives back that statistic.
pub proof fn law_target_name_round_trip(t: StatisticTarget)
    ensures
        spec_statistic_target(target_name(t)) == Some(t),
{
    reveal_strlit("NULLFRAC");
    reveal_strlit("WIDTH");
    reveal_strlit("DISTINCT");
    reveal_strlit("MOST COMMON VALUES");
    reveal_strlit("HISTOGRAM");
    reveal_strlit("CORRELATION");
    reveal_strlit("MOST COMMON ELEMENT");
    reveal_strlit("DISTINCT ELEMENT HISTOGRAM");
    reveal_strlit("RANGE LENGTH HISTOGRAM");
    reveal_strlit("KIND BOUNDS HISTOGRAM");
    assert("NULLFRAC"@.len() == 8);
    assert("WIDTH"@.len() == 5);
    assert("DISTINCT"@.len() == 8);
    assert("MOST COMMON VALUES"@.len() == 18);
    assert("HISTOGRAM"@.len() == 9);
    assert("CORRELATION"@.len() == 11);
    assert("MOST COMMON ELEMENT"@.len() == 19);
    assert("DISTINCT ELEMENT HISTOGRAM"@.len() == 26);
    assert("RANGE LENGTH HISTOGRAM"@.len() == 22);
    assert("KIND BOUNDS HISTOGRAM"@.len() == 21);
    assert("NULLFRAC"@[0] != "DISTINCT"@[0]);
}

/// An edit changes only the statistic it names. An edit of the null
/// fraction, width or distinct count changes that column and nothing else.
/// An edit of a slot statistic changes, in the first slot of the
/// statistic's kind, only the arrays the statistic brings; every other
/// column and every other slot stays as it was.
pub proof fn law_edit_changes_only_its_statistic(row: PgStatisticRowView, edit: StatisticEdit)
    ensures
        modify_outcome(row, edit) matches Ok((new_row, _)) ==> {
            &&& new_row.starelid == row.starelid
            &&& new_row.staattnum == row.staattnum
            &&& new_row.stainherit == row.stainherit
            &&& new_row.slots.len() == row.slots.len()
            &&& (edit_target(edit) != StatisticTarget::NullFrac ==> new_row.stanullfrac_bits
                == row.stanullfrac_bits)
            &&& (edit_target(edit) != StatisticTarget::Width ==> new_row.stawidth == row.stawidth)
            &&& (edit_target(edit) != StatisticTarget::Distinct ==> new_row.stadistinct_bits
                == row.stadistinct_bits)
            &&& (slot_kind(edit_target(edit)) is None ==> new_row.slots == row.slots)
            &&& (slot_kind(edit_target(edit)) matches Some(kind) ==> {
                &&& first_slot_with_kind(row.slots, kind) matches Some(k)
                &&& row.slots[k].kind == kind
                &&& (forall|j: int| 0 <= j < k ==> row.slots[j].kind != kind)
                &&& (forall|j: int| 0 <= j < row.slots.len() && j != k ==> new_row.slots[j]
                    == row.slots[j])
                &&& new_row.slots[k].kind == row.slots[k].kind
                &&& new_row.slots[k].op == row.slots[k].op
                &&& new_row.slots[k].coll == row.slots[k].coll
                &&& new_row.slots[k].values_type == row.slots[k].values_type
            })
        },
{
    match slot_kind(edit_target(edit)) {
        Some(kind) => lemma_find_kind_from(row.slots, kind, 0),
        None => {},
    }
}

/// A slot statistic is refused as absent exactly when no slot of the row
/// has the statistic's kind.
pub proof fn law_absent_statistic_refused(row: PgStatisticRowView, edit: StatisticEdit)
    requires
        slot_kind(edit_target(edit)) is Some,
    ensures
        (modify_outcome(row, edit) == Err::<(PgStatisticRowView, Option<FloatCheckView>), ModifyError>(
            ModifyError::NotAStatistic(edit_target(edit)),
        )) <==> (forall|j: int|
            0 <= j < row.slots.len() ==> row.slots[j].kind != slot_kind(edit_target(edit))->0),
{
    let kind = slot_kind(edit_target(edit))->0;
    lemma_find_kind_from(row.slots, kind, 0);
}

/// Applying an edit a second time, to the row it produced, changes nothing
/// more and asks for the same pending check.
pub proof fn law_edit_idempotent(row: PgStatisticRowView, edit: StatisticEdit)
    ensures
        modify_outcome(row, edit) matches Ok((new_row, c)) ==> modify_outcome(new_row, edit) == Ok::<
            (PgStatisticRowView, Option<FloatCheckView>),
            ModifyError,
        >((new_row, c)),
{
    if let Ok((new_row, c)) = modify_outcome(row, edit) {
        match slot_kind(edit_target(edit)) {
            Some(kind) => {
                lemma_find_kind_from(row.slots, kind, 0);
                lemma_find_kind_from(new_row.slots, kind, 0);
                let k = first_slot_with_kind(row.slots, kind)->0;
                assert(first_slot_with_kind(new_row.slots, kind) == Some(k)) by {
                    let k2 = first_slot_with_kind(new_row.slots, kind);
                    if k2 is None {
                        assert(new_row.slots[k].kind == kind);
                    } else {
                        let kk = k2->0;
                        if kk < k {
                            assert(new_row.slots[kk] == row.slots[kk]);
                        } else if kk > k {
                            assert(new_row.slots[k].kind == kind);
                        }
                    }
                }
                let (again, _) = modify_outcome(new_row, edit)->Ok_0;
                assert(again =~= new_row);
            },
            None => {
                let (again, _) = modify_outcome(new_row, edit)->Ok_0;
                assert(again =~= new_row);
            },
        }
    }
}


/// A width written in decimal is stored as that width, and nothing else in
/// the row changes.
pub proof fn law_width_written_is_stored(row: PgStatisticRowView, text: String, w: i32)
    requires
        text@ == decimal_text(w as int),
    ensures
        modify_outcome(row, StatisticEdit::Width { text }) == Ok::<
            (PgStatisticRowView, Option<FloatCheckView>),
            ModifyError,
        >((PgStatisticRowView { stawidth: w, ..row }, None)),
{
    law_decimal_round_trip(w);
}


/// Slot `k` is the first slot of the row whose kind is `kind`.
pub open spec fn is_first_of_kind(slots: Seq<StatSlotView>, kind: i16, k: int) -> bool {
    &&& 0 <= k < slots.len()
    &&& slots[k].kind == kind
    &&& forall|j: int| 0 <= j < k ==> slots[j].kind != kind
}

/// A successful slot edit stores the arrays it brings in the first slot of
/// its kind and keeps that slot's other array: the most common values,
/// most common elements and range-length histogram replace both
/// `stanumbers` and `stavalues`; the histogram and the bounds histogram
/// replace `stavalues` only; the correlation and the distinct-element
/// histogram replace `stanumbers` only.
pub proof fn law_slot_edit_stores_its_arrays(row: PgStatisticRowView, edit: StatisticEdit, k: int)
    ensures
        modify_outcome(row, edit) matches Ok((new_row, _)) ==> match edit {
            StatisticEdit::MostCommonValues { stanumbers, stavalues, .. } => is_first_of_kind(row.slots, 1, k)
                ==> new_row.slots[k].numbers == stanumbers@ && new_row.slots[k].values == stavalues@,
            StatisticEdit::Histogram { stavalues } => is_first_of_kind(row.slots, 2, k)
                ==> new_row.slots[k].numbers == row.slots[k].numbers && new_row.slots[k].values
                == stavalues@,
            StatisticEdit::Correlation { stanumbers } => is_first_of_kind(row.slots, 3, k)
                ==> new_row.slots[k].numbers == stanumbers@ && new_row.slots[k].values
                == row.slots[k].values,
            StatisticEdit::MostCommonElement { stanumbers, stavalues } => is_first_of_kind(row.slots, 4, k)
                ==> new_row.slots[k].numbers == stanumbers@ && new_row.slots[k].values == stavalues@,
            StatisticEdit::DistinctElementHistogram { stanumbers } => is_first_of_kind(row.slots, 5, k)
                ==> new_row.slots[k].numbers == stanumbers@ && new_row.slots[k].values
                == row.slots[k].values,
            StatisticEdit::RangeLengthHistogram { stanumbers, stavalues } => is_first_of_kind(
                row.slots,
                6,
                k,
            ) ==> new_row.slots[k].numbers == stanumbers@ && new_row.slots[k].values == stavalues@,
            StatisticEdit::KindBoundsHistogram { stavalues } => is_first_of_kind(row.slots, 7, k)
                ==> new_row.slots[k].numbers == row.slots[k].numbers && new_row.slots[k].values
                == stavalues@,
            _ => true,
        },
{
    match slot_kind(edit_target(edit)) {
        Some(kind) => {
            lemma_find_kind_from(row.slots, kind, 0);
            if is_first_of_kind(row.slots, kind, k) {
                let f = first_slot_with_kind(row.slots, kind);
                if f is Some {
                    let kk = f->0;
                    if kk < k {
                        assert(row.slots[kk].kind == kind);
                    } else if kk > k {
                        assert(row.slots[k].kind == kind);
                    }
                }
            }
        },
        None => {},
    }
}

/// A slot statistic with no check on its values is always stored when the
/// row has a slot of its kind: the correlation, the most common elements,
/// the distinct-element histogram, the range-length histogram and the
/// bounds histogram never fail then, and leave no check pending.
pub proof fn law_unchecked_slot_edit_succeeds(row: PgStatisticRowView, edit: StatisticEdit, k: int)
    requires
        match edit {
            StatisticEdit::Correlation { .. } => is_first_of_kind(row.slots, 3, k),
            StatisticEdit::MostCommonElement { .. } => is_first_of_kind(row.slots, 4, k),
            StatisticEdit::DistinctElementHistogram { .. } => is_first_of_kind(row.slots, 5, k),
            StatisticEdit::RangeLengthHistogram { .. } => is_first_of_kind(row.slots, 6, k),
            StatisticEdit::KindBoundsHistogram { .. } => is_first_of_kind(row.slots, 7, k),
            _ => false,
        },
    ensures
        modify_outcome(row, edit) matches Ok((_, c)) && c is None,
{
    let kind = slot_kind(edit_target(edit))->0;
    lemma_find_kind_from(row.slots, kind, 0);
    let f = first_slot_with_kind(row.slots, kind);
    if f is None {
        assert(row.slots[k].kind == kind);
    }
}

/// The null fraction and the distinct count are set to exactly the value
/// the edit brings, and such an edit always succeeds with no check pending;
/// a width edit succeeds exactly when its text reads as an `i32`, and then
/// stores that number.
pub proof fn law_column_edit_stores_its_value(row: PgStatisticRowView, bits: u32, text: String)
    ensures
        modify_outcome(row, StatisticEdit::NullFrac { bits }) matches Ok((new_row, c)) && c is None
            && new_row.stanullfrac_bits == bits,
        modify_outcome(row, StatisticEdit::Distinct { bits }) matches Ok((new_row, c)) && c is None
            && new_row.stadistinct_bits == bits,
        modify_outcome(row, StatisticEdit::Width { text }) is Ok <==> decimal_i32(text@) is Some,
        modify_outcome(row, StatisticEdit::Width { text }) matches Ok((new_row, c)) ==> c is None
            && Some(new_row.stawidth) == decimal_i32(text@),
        decimal_i32(text@) is None ==> modify_outcome(row, StatisticEdit::Width { text }) == Err::<
            (PgStatisticRowView, Option<FloatCheckView>),
            ModifyError,
        >(ModifyError::InvalidWidth),
{
}

/// A histogram edit checks the new bounds against the element type of the
/// first histogram slot: on a `float4` or `float8` column it succeeds only
/// with a pending increasing-bounds check carrying that type and the new
/// text; on an `int4` or `int8` column it succeeds only when the text is a
/// non-empty, strictly increasing JSON array of that type, with nothing
/// pending. A most-common-values edit likewise checks the new values:
/// floating-point ones through a pending length check against the given
/// number of frequencies, integer ones succeed only when the array has
/// exactly that many elements.
pub proof fn law_slot_edit_checks_its_values(row: PgStatisticRowView, edit: StatisticEdit, k: int)
    ensures
        edit matches StatisticEdit::Histogram { stavalues } ==> (is_first_of_kind(row.slots, 2, k)
            ==> match modify_outcome(row, edit) {
            Ok((_, c)) => {
                let t = row.slots[k].values_type;
                &&& (t == 700 || t == 701) ==> c == Some(
                    FloatCheckView::HistogramIncreasing { element_type: t, stavalues: stavalues@ },
                )
                &&& t == 23 ==> (c is None && (json_i32_array(stavalues@) matches Some(v) && v.len() > 0
                    && forall|i: int, j: int| 0 <= i < j < v.len() ==> v[i] < v[j]))
                &&& t == 20 ==> (c is None && (json_i64_array(stavalues@) matches Some(v) && v.len() > 0
                    && forall|i: int, j: int| 0 <= i < j < v.len() ==> v[i] < v[j]))
                &&& (t == 20 || t == 23 || t == 700 || t == 701)
            },
            Err(_) => true,
        }),
        edit matches StatisticEdit::MostCommonValues { stavalues, stanumbers_len, .. } ==> (
        is_first_of_kind(row.slots, 1, k) ==> match modify_outcome(row, edit) {
            Ok((_, c)) => {
                let t = row.slots[k].values_type;
                &&& (t == 700 || t == 701) ==> c == Some(
                    FloatCheckView::ValuesLength {
                        element_type: t,
                        stavalues: stavalues@,
                        expected_len: stanumbers_len,
                    },
                )
                &&& t == 23 ==> (c is None && (json_i32_array(stavalues@) matches Some(v) && v.len()
                    == stanumbers_len))
                &&& t == 20 ==> (c is None && (json_i64_array(stavalues@) matches Some(v) && v.len()
                    == stanumbers_len))
                &&& (t == 20 || t == 23 || t == 700 || t == 701)
            },
            Err(_) => true,
        }),
{
    match slot_kind(edit_target(edit)) {
        Some(kind) => {
            lemma_find_kind_from(row.slots, kind, 0);
            if is_first_of_kind(row.slots, kind, k) {
                let f = first_slot_with_kind(row.slots, kind);
                if f is Some {
                    let kk = f->0;
                    if kk < k {
                        assert(row.slots[kk].kind == kind);
                    } else if kk > k {
                        assert(row.slots[k].kind == kind);
                    }
                }
                let t = row.slots[k].values_type;
                match edit {
                    StatisticEdit::Histogram { stavalues } => {
                        crate::stavalues::law_histogram_check(t, stavalues@);
                    },
                    StatisticEdit::MostCommonValues { stavalues, stanumbers_len, .. } => {
                        crate::stavalues::law_values_length_check(t, stavalues@, stanumbers_len);
                    },
                    _ => {},
                }
            }
        },
        None => {},
    }
}


/// A histogram or most-common-values edit on a row that has a slot of its
/// kind succeeds exactly when its new values pass the check for that
/// slot's element type (floating-point values always pass here, with a
/// check left pending), and is otherwise refused for its values.
pub proof fn law_checked_slot_edit_succeeds(row: PgStatisticRowView, edit: StatisticEdit, k: int)
    ensures
        edit matches StatisticEdit::Histogram { stavalues } ==> (is_first_of_kind(row.slots, 2, k) ==> {
            let t = row.slots[k].values_type;
            &&& (modify_outcome(row, edit) is Ok <==> ((t == 700 || t == 701) || (t == 23 && (json_i32_array(
                stavalues@,
            ) matches Some(v) && v.len() > 0 && forall|i: int, j: int| 0 <= i < j < v.len() ==> v[i] < v[j]))
                || (t == 20 && (json_i64_array(stavalues@) matches Some(v) && v.len() > 0 && forall|
                i: int,
                j: int,
            | 0 <= i < j < v.len() ==> v[i] < v[j]))))
            &&& (modify_outcome(row, edit) is Err ==> modify_outcome(row, edit)->Err_0 is Values)
        }),
        edit matches StatisticEdit::MostCommonValues { stavalues, stanumbers_len, .. } ==> (
        is_first_of_kind(row.slots, 1, k) ==> {
            let t = row.slots[k].values_type;
            &&& (modify_outcome(row, edit) is Ok <==> ((t == 700 || t == 701) || (t == 23 && (json_i32_array(
                stavalues@,
            ) matches Some(v) && v.len() == stanumbers_len)) || (t == 20 && (json_i64_array(stavalues@) matches Some(
                v,
            ) && v.len() == stanumbers_len))))
            &&& (modify_outcome(row, edit) is Err ==> modify_outcome(row, edit)->Err_0 is Values)
        }),
{
    match slot_kind(edit_target(edit)) {
        Some(kind) => {
            lemma_find_kind_from(row.slots, kind, 0);
            if is_first_of_kind(row.slots, kind, k) {
                let f = first_slot_with_kind(row.slots, kind);
                if f is Some {
                    let kk = f->0;
                    if kk < k {
                        assert(row.slots[kk].kind == kind);
                    } else if kk > k {
                        assert(row.slots[k].kind == kind);
                    }
                } else {
                    assert(row.slots[k].kind == kind);
                }
                let t = row.slots[k].values_type;
                match edit {
                    StatisticEdit::Histogram { stavalues } => {
                        crate::stavalues::law_histogram_check(t, stavalues@);
                    },
                    StatisticEdit::MostCommonValues { stavalues, stanumbers_len, .. } => {
                        crate::stavalues::law_values_length_check(t, stavalues@, stanumbers_len);
                    },
                    _ => {},
                }
            }
        },
        None => {},
    }
}

} // verus!
