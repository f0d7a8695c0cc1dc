//! Checks on the JSON text that replaces a `stavalues` array.
//!
//! The element type of a `stavalues` array is the type of the column; only
//! the integer and floating-point types can be checked. Integer arrays are
//! read with `serde_json` and checked here; floating-point arrays cannot be
//! held by this library, so the check is handed back to the caller as a
//! [`FloatCheck`].

use vstd::prelude::*;

verus! {

/// Type oid of `int8`.
pub const INT8OID: u32 = 20;
/// Type oid of `int4`.
pub const INT4OID: u32 = 23;
/// Type oid of `float4`.
pub const FLOAT4OID: u32 = 700;
/// Type oid of `float8`.
pub const FLOAT8OID: u32 = 701;
/// Type oid of `varchar`.
pub const VARCHAROID: u32 = 1043;
/// Type oid of `date`.
pub const DATEOID: u32 = 1082;
/// Type oid of `numeric`.
pub const NUMERICOID: u32 = 1700;
/// Type oid of `anyarray`, the type recorded for an absent `stavalues`.
pub const ANYARRAYOID: u32 = 2277;

/// `serde_json::Error`, the error of a failed JSON read; carried, never
/// looked into.
#[verifier::external_type_specification]
#[verifier::external_body]
pub struct ExJsonError(serde_json::Error);

/// What `serde_json::from_str::<Vec<i32>>` reads from a text: the integers
/// of a JSON array, or `None` where the text is not such an array.
pub uninterp spec fn json_i32_array(text: Seq<char>) -> Option<Seq<i32>>;

/// What `serde_json::from_str::<Vec<i64>>` reads from a text: the integers
/// of a JSON array, or `None` where the text is not such an array.
pub uninterp spec fn json_i64_array(text: Seq<char>) -> Option<Seq<i64>>;

/// `serde_json::from_str::<Vec<i32>>`. Trusted: it succeeds exactly when
/// the name `json_i32_array` has a value for the text, and then returns
/// that value; the JSON grammar itself is not restated.
#[verifier::external_body]
fn read_i32_array(text: &str) -> (r: Result<Vec<i32>, serde_json::Error>)
    ensures
        r is Ok <==> json_i32_array(text@) is Some,
        r matches Ok(v) ==> json_i32_array(text@) == Some(v@),
{
    serde_json::from_str::<Vec<i32>>(text)
}

/// `serde_json::from_str::<Vec<i64>>`. Trusted: it succeeds exactly when
/// the name `json_i64_array` has a value for the text, and then returns
/// that value; the JSON grammar itself is not restated.
#[verifier::external_body]
fn read_i64_array(text: &str) -> (r: Result<Vec<i64>, serde_json::Error>)
    ensures
        r is Ok <==> json_i64_array(text@) is Some,
        r matches Ok(v) ==> json_i64_array(text@) == Some(v@),
{
    serde_json::from_str::<Vec<i64>>(text)
}

/// Why new `stavalues` were refused.
#[derive(Debug, Clone, Copy, PartialEq, Eq, Structural)]
pub enum ValuesError {
    /// The text is not a JSON array of the column's element type.
    InvalidJson,
    /// The array does not have as many elements as the new `stanumbers`.
    LengthMismatch,
    /// The column's element type cannot be checked.
    UnsupportedType,
    /// A histogram needs at least one bound.
    EmptyHistogram,
    /// Histogram bounds must be strictly increasing.
    NotIncreasing,
}

/// A check on floating-point `stavalues` that the caller must still run.
pub enum FloatCheck {
    /// The array, read as `element_type` (`FLOAT4OID` or `FLOAT8OID`),
    /// must have `expected_len` elements.
    ValuesLength { element_type: u32, stavalues: String, expected_len: usize },
    /// The array, read as `element_type` (`FLOAT4OID` or `FLOAT8OID`),
    /// must be non-empty and strictly increasing.
    HistogramIncreasing { element_type: u32, stavalues: String },
}

/// The mathematical content of a [`FloatCheck`].
pub enum FloatCheckView {
    ValuesLength { element_type: u32, stavalues: Seq<char>, expected_len: usize },
    HistogramIncreasing { element_type: u32, stavalues: Seq<char> },
}

impl View for FloatCheck {
    type V = FloatCheckView;

    open spec fn view(&self) -> FloatCheckView {
        match self {
            FloatCheck::ValuesLength { element_type, stavalues, expected_len } =>
                FloatCheckView::ValuesLength {
                    element_type: *element_type,
                    stavalues: stavalues@,
                    expected_len: *expected_len,
                },
            FloatCheck::HistogramIncreasing { element_type, stavalues } =>
                FloatCheckView::HistogramIncreasing {
                    element_type: *element_type,
                    stavalues: stavalues@,
                },
        }
    }
}

/// The view of an optional pending check.
pub open spec fn pending_view(c: Option<FloatCheck>) -> Option<FloatCheckView> {
    match c {
        Some(c) => Some(c@),
        None => None,
    }
}

/// `typ` is one of the floating-point element types.
pub open spec fn is_float_type(typ: u32) -> bool {
    typ == FLOAT4OID || typ == FLOAT8OID
}

/// Every bound is smaller than every later bound.
pub open spec fn strictly_increasing_i32(s: Seq<i32>) -> bool {
    forall|i: int, j: int| 0 <= i < j < s.len() ==> s[i] < s[j]
}

/// Every bound is smaller than every later bound.
pub open spec fn strictly_increasing_i64(s: Seq<i64>) -> bool {
    forall|i: int, j: int| 0 <= i < j < s.len() ==> s[i] < s[j]
}

/// The verdict on integer histogram bounds once they are read.
pub open spec fn histogram_verdict(len: nat, increasing: bool) -> Result<(), ValuesError> {
    if len == 0 {
        Err(ValuesError::EmptyHistogram)
    } else if increasing {
        Ok(())
    } else {
        Err(ValuesError::NotIncreasing)
    }
}

/// The outcome of checking that new `stavalues` of element type `typ` have
/// `expected` elements.
pub open spec fn values_length_outcome(typ: u32, text: Seq<char>, expected: usize) -> Result<
    Option<FloatCheckView>,
    ValuesError,
> {
    if is_float_type(typ) {
        Ok(Some(FloatCheckView::ValuesLength { element_type: typ, stavalues: text, expected_len: expected }))
    } else if typ == INT4OID {
        match json_i32_array(text) {
            None => Err(ValuesError::InvalidJson),
            Some(v) => if v.len() == expected { Ok(None) } else { Err(ValuesError::LengthMismatch) },
        }
    } else if typ == INT8OID {
        match json_i64_array(text) {
            None => Err(ValuesError::InvalidJson),
            Some(v) => if v.len() == expected { Ok(None) } else { Err(ValuesError::LengthMismatch) },
        }
    } else {
        Err(ValuesError::UnsupportedType)
    }
}

/// The outcome of checking new histogram bounds of element type `typ`.
pub open spec fn histogram_outcome(typ: u32, text: Seq<char>) -> Result<Option<FloatCheckView>, ValuesError> {
    if is_float_type(typ) {
        Ok(Some(FloatCheckView::HistogramIncreasing { element_type: typ, stavalues: text }))
    } else if typ == INT4OID {
        match json_i32_array(text) {
            None => Err(ValuesError::InvalidJson),
            Some(v) => match histogram_verdict(v.len(), strictly_increasing_i32(v)) {
                Ok(_) => Ok(None),
                Err(e) => Err(e),
            },
        }
    } else if typ == INT8OID {
        match json_i64_array(text) {
            None => Err(ValuesError::InvalidJson),
            Some(v) => match histogram_verdict(v.len(), strictly_increasing_i64(v)) {
                Ok(_) => Ok(None),
                Err(e) => Err(e),
            },
        }
    } else {
        Err(ValuesError::UnsupportedType)
    }
}

/// The view of a checking result.
pub open spec fn check_result_view(r: Result<Option<FloatCheck>, ValuesError>) -> Result<
    Option<FloatCheckView>,
    ValuesError,
> {
    match r {
        Ok(c) => Ok(pending_view(c)),
        Err(e) => Err(e),
    }
}

/// The verdict on integer `stavalues` once they are read: they must have
/// as many elements as the new `stanumbers`.
pub fn check_values_length(values_len: usize, expected: usize) -> (r: Result<(), ValuesError>)
    ensures
        r == (if values_len == expected { Ok::<(), ValuesError>(()) } else { Err(ValuesError::LengthMismatch) }),
{
    if values_len == expected {
        Ok(())
    } else {
        Err(ValuesError::LengthMismatch)
    }
}

/// Checks `int4` histogram bounds: there is at least one, and each is
/// larger than the one before.
pub fn check_histogram_i32(bounds: &Vec<i32>) -> (r: Result<(), ValuesError>)
    ensures
        r == histogram_verdict(bounds@.len(), strictly_increasing_i32(bounds@)),
{
    if bounds.len() == 0 {
        return Err(ValuesError::EmptyHistogram);
    }
    let mut prev: i32 = bounds[0];
    let mut i: usize = 1;
    while i < bounds.len()
        invariant
            1 <= i <= bounds@.len(),
            prev == bounds@[i - 1],
            strictly_increasing_i32(bounds@.take(i as int)),
        decreases bounds@.len() - i,
    {
        let item: i32 = bounds[i];
        if item <= prev {
            proof {
                assert(!strictly_increasing_i32(bounds@)) by {
                    assert(bounds@[i - 1] >= bounds@[i as int]);
                }
            }
            return Err(ValuesError::NotIncreasing);
        }
        proof {
            let ghost before = bounds@.take(i as int);
            let ghost after = bounds@.take(i + 1);
            assert forall|a: int, b: int| 0 <= a < b < after.len() implies #[trigger] after[a]
                < #[trigger] after[b] by {
                if b < i {
                    assert(before[a] < before[b]);
                } else if a < i - 1 {
                    assert(before[a] < before[i - 1]);
                }
            }
        }
        prev = item;
        i = i + 1;
    }
    assert(bounds@.take(i as int) =~= bounds@);
    Ok(())
}

/// Checks `int8` histogram bounds: there is at least one, and each is
/// larger than the one before.
pub fn check_histogram_i64(bounds: &Vec<i64>) -> (r: Result<(), ValuesError>)
    ensures
        r == histogram_verdict(bounds@.len(), strictly_increasing_i64(bounds@)),
{
    if bounds.len() == 0 {
        return Err(ValuesError::EmptyHistogram);
    }
    let mut prev: i64 = bounds[0];
    let mut i: usize = 1;
    while i < bounds.len()
        invariant
            1 <= i <= bounds@.len(),
            prev == bounds@[i - 1],
            strictly_increasing_i64(bounds@.take(i as int)),
        decreases bounds@.len() - i,
    {
        let item: i64 = bounds[i];
        if item <= prev {
            proof {
                assert(!strictly_increasing_i64(bounds@)) by {
                    assert(bounds@[i - 1] >= bounds@[i as int]);
                }
            }
            return Err(ValuesError::NotIncreasing);
        }
        proof {
            let ghost before = bounds@.take(i as int);
            let ghost after = bounds@.take(i + 1);
            assert forall|a: int, b: int| 0 <= a < b < after.len() implies #[trigger] after[a]
                < #[trigger] after[b] by {
                if b < i {
                    assert(before[a] < before[b]);
                } else if a < i - 1 {
                    assert(before[a] < before[i - 1]);
                }
            }
        }
        prev = item;
        i = i + 1;
    }
    assert(bounds@.take(i as int) =~= bounds@);
    Ok(())
}

/// Checks that new `stavalues` of element type `typ` hold `expected`
/// elements: integer arrays are read and counted here, floating-point
/// arrays are handed back as a pending check, other types are refused.
pub fn verify_stavalues(typ: u32, stavalues: &str, expected: usize) -> (r: Result<
    Option<FloatCheck>,
    ValuesError,
>)
    ensures
        check_result_view(r) == values_length_outcome(typ, stavalues@, expected),
{
    if typ == FLOAT4OID || typ == FLOAT8OID {
        let text = stavalues.to_owned();
        Ok(Some(FloatCheck::ValuesLength { element_type: typ, stavalues: text, expected_len: expected }))
    } else if typ == INT4OID {
        match read_i32_array(stavalues) {
            Err(_) => Err(ValuesError::InvalidJson),
            Ok(v) => match check_values_length(v.len(), expected) {
                Ok(()) => Ok(None),
                Err(e) => Err(e),
            },
        }
    } else if typ == INT8OID {
        match read_i64_array(stavalues) {
            Err(_) => Err(ValuesError::InvalidJson),
            Ok(v) => match check_values_length(v.len(), expected) {
                Ok(()) => Ok(None),
                Err(e) => Err(e),
            },
        }
    } else {
        Err(ValuesError::UnsupportedType)
    }
}

/// Checks new histogram bounds of element type `typ`: integer bounds are
/// read and checked here, floating-point bounds are handed back as a
/// pending check, other types are refused.
pub fn verify_histogram(typ: u32, stavalues: &str) -> (r: Result<Option<FloatCheck>, ValuesError>)
    ensures
        check_result_view(r) == histogram_outcome(typ, stavalues@),
{
    if typ == FLOAT4OID || typ == FLOAT8OID {
        let text = stavalues.to_owned();
        Ok(Some(FloatCheck::HistogramIncreasing { element_type: typ, stavalues: text }))
    } else if typ == INT4OID {
        match read_i32_array(stavalues) {
            Err(_) => Err(ValuesError::InvalidJson),
            Ok(v) => match check_histogram_i32(&v) {
                Ok(()) => Ok(None),
                Err(e) => Err(e),
            },
        }
    } else if typ == INT8OID {
        match read_i64_array(stavalues) {
            Err(_) => Err(ValuesError::InvalidJson),
            Ok(v) => match check_histogram_i64(&v) {
                Ok(()) => Ok(None),
                Err(e) => Err(e),
            },
        }
    } else {
        Err(ValuesError::UnsupportedType)
    }
}


/// Floating-point bounds are never accepted here: for `float4` and `float8`
/// the histogram check succeeds only by handing back a pending check that
/// carries that element type and the new bounds text. Integer bounds are
/// accepted exactly when the text is a JSON array of the column's integer
/// type that is non-empty and whose every bound is below every later one;
/// a readable array that is empty or out of order is refused as such.
pub proof fn law_histogram_check(typ: u32, text: Seq<char>)
    ensures
        (typ == 700 || typ == 701) ==> histogram_outcome(typ, text) == Ok::<
            Option<FloatCheckView>,
            ValuesError,
        >(Some(FloatCheckView::HistogramIncreasing { element_type: typ, stavalues: text })),
        typ == 23 ==> {
            &&& (histogram_outcome(typ, text) is Ok <==> (json_i32_array(text) matches Some(v) && v.len()
                > 0 && forall|i: int, j: int| 0 <= i < j < v.len() ==> v[i] < v[j]))
            &&& (histogram_outcome(typ, text) is Ok ==> histogram_outcome(typ, text) == Ok::<
                Option<FloatCheckView>,
                ValuesError,
            >(None))
            &&& (json_i32_array(text) is None ==> histogram_outcome(typ, text) == Err::<
                Option<FloatCheckView>,
                ValuesError,
            >(ValuesError::InvalidJson))
            &&& (json_i32_array(text) matches Some(v) && v.len() == 0 ==> histogram_outcome(typ, text)
                == Err::<Option<FloatCheckView>, ValuesError>(ValuesError::EmptyHistogram))
            &&& (json_i32_array(text) matches Some(v) && v.len() > 0 && !(forall|i: int, j: int|
                0 <= i < j < v.len() ==> v[i] < v[j]) ==> histogram_outcome(typ, text) == Err::<
                Option<FloatCheckView>,
                ValuesError,
            >(ValuesError::NotIncreasing))
        },
        typ == 20 ==> {
            &&& (histogram_outcome(typ, text) is Ok <==> (json_i64_array(text) matches Some(v) && v.len()
                > 0 && forall|i: int, j: int| 0 <= i < j < v.len() ==> v[i] < v[j]))
            &&& (histogram_outcome(typ, text) is Ok ==> histogram_outcome(typ, text) == Ok::<
                Option<FloatCheckView>,
                ValuesError,
            >(None))
            &&& (json_i64_array(text) is None ==> histogram_outcome(typ, text) == Err::<
                Option<FloatCheckView>,
                ValuesError,
            >(ValuesError::InvalidJson))
            &&& (json_i64_array(text) matches Some(v) && v.len() == 0 ==> histogram_outcome(typ, text)
                == Err::<Option<FloatCheckView>, ValuesError>(ValuesError::EmptyHistogram))
            &&& (json_i64_array(text) matches Some(v) && v.len() > 0 && !(forall|i: int, j: int|
                0 <= i < j < v.len() ==> v[i] < v[j]) ==> histogram_outcome(typ, text) == Err::<
                Option<FloatCheckView>,
                ValuesError,
            >(ValuesError::NotIncreasing))
        },
        (typ != 20 && typ != 23 && typ != 700 && typ != 701) ==> histogram_outcome(typ, text) == Err::<
            Option<FloatCheckView>,
            ValuesError,
        >(ValuesError::UnsupportedType),
{
}

/// New most-common `stavalues` are judged against the number of new
/// frequencies: floating-point ones only through a pending length check
/// carrying the element type, the text and that number; integer ones are
/// accepted exactly when the text is a JSON array of the column's integer
/// type with exactly that many elements, and a readable array of any other
/// length is refused as a length mismatch.
pub proof fn law_values_length_check(typ: u32, text: Seq<char>, expected: usize)
    ensures
        (typ == 700 || typ == 701) ==> values_length_outcome(typ, text, expected) == Ok::<
            Option<FloatCheckView>,
            ValuesError,
        >(
            Some(
                FloatCheckView::ValuesLength { element_type: typ, stavalues: text, expected_len: expected },
            ),
        ),
        typ == 23 ==> {
            &&& (values_length_outcome(typ, text, expected) is Ok <==> (json_i32_array(text) matches Some(
                v,
            ) && v.len() == expected))
            &&& (values_length_outcome(typ, text, expected) is Ok ==> values_length_outcome(
                typ,
                text,
                expected,
            ) == Ok::<Option<FloatCheckView>, ValuesError>(None))
            &&& (json_i32_array(text) is None ==> values_length_outcome(typ, text, expected) == Err::<
                Option<FloatCheckView>,
                ValuesError,
            >(ValuesError::InvalidJson))
            &&& (json_i32_array(text) matches Some(v) && v.len() != expected ==> values_length_outcome(
                typ,
                text,
                expected,
            ) == Err::<Option<FloatCheckView>, ValuesError>(ValuesError::LengthMismatch))
        },
        typ == 20 ==> {
            &&& (values_length_outcome(typ, text, expected) is Ok <==> (json_i64_array(text) matches Some(
                v,
            ) && v.len() == expected))
            &&& (values_length_outcome(typ, text, expected) is Ok ==> values_length_outcome(
                typ,
                text,
                expected,
            ) == Ok::<Option<FloatCheckView>, ValuesError>(None))
            &&& (json_i64_array(text) is None ==> values_length_outcome(typ, text, expected) == Err::<
                Option<FloatCheckView>,
                ValuesError,
            >(ValuesError::InvalidJson))
            &&& (json_i64_array(text) matches Some(v) && v.len() != expected ==> values_length_outcome(
                typ,
                text,
                expected,
            ) == Err::<Option<FloatCheckView>, ValuesError>(ValuesError::LengthMismatch))
        },
        (typ != 20 && typ != 23 && typ != 700 && typ != 701) ==> values_length_outcome(typ, text, expected)
            == Err::<Option<FloatCheckView>, ValuesError>(ValuesError::UnsupportedType),
{
}


/// The verdict on integer histogram bounds that were read: accepted exactly
/// when there is at least one bound and every bound is below every later
/// one; no bound at all is refused as empty, any other refusal is for order.
pub proof fn law_histogram_bounds_verdict(b32: Seq<i32>, b64: Seq<i64>)
    ensures
        histogram_verdict(b32.len(), strictly_increasing_i32(b32)) is Ok <==> (b32.len() > 0
            && forall|i: int, j: int| 0 <= i < j < b32.len() ==> b32[i] < b32[j]),
        b32.len() == 0 ==> histogram_verdict(b32.len(), strictly_increasing_i32(b32)) == Err::<
            (),
            ValuesError,
        >(ValuesError::EmptyHistogram),
        b32.len() > 0 && histogram_verdict(b32.len(), strictly_increasing_i32(b32)) is Err
            ==> histogram_verdict(b32.len(), strictly_increasing_i32(b32)) == Err::<(), ValuesError>(
            ValuesError::NotIncreasing,
        ),
        histogram_verdict(b64.len(), strictly_increasing_i64(b64)) is Ok <==> (b64.len() > 0
            && forall|i: int, j: int| 0 <= i < j < b64.len() ==> b64[i] < b64[j]),
        b64.len() == 0 ==> histogram_verdict(b64.len(), strictly_increasing_i64(b64)) == Err::<
            (),
            ValuesError,
        >(ValuesError::EmptyHistogram),
        b64.len() > 0 && histogram_verdict(b64.len(), strictly_increasing_i64(b64)) is Err
            ==> histogram_verdict(b64.len(), strictly_increasing_i64(b64)) == Err::<(), ValuesError>(
            ValuesError::NotIncreasing,
        ),
{
}

} // verus!
