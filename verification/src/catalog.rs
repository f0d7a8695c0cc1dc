//! Decisions the extension takes when it writes dumped rows back into the
//! system catalogs, and the relation sizes it hands to the planner.

use vstd::prelude::*;
use std::collections::HashMap;
use crate::statistic::{PgStatisticRow, StatSlot, NUM_SLOTS};
use crate::stavalues::{DATEOID, FLOAT4OID, FLOAT8OID, INT4OID, INT8OID, NUMERICOID, VARCHAROID};
use crate::text::str_eq;

verus! {

/// How the JSON text of a statistic array becomes a column value.
#[derive(Debug, Clone, Copy, PartialEq, Eq, Structural)]
pub enum ArrayColumn {
    /// The array is absent: the column is NULL.
    Null,
    /// Read as `float4[]`.
    Float4Array,
    /// Read as `float8[]`.
    Float8Array,
    /// Read as `int4[]`.
    Int4Array,
    /// Read as `int8[]`.
    Int8Array,
    /// Read as `date[]`.
    DateArray,
    /// Read as `varchar[]`.
    VarcharArray,
}

/// The text `null` that marks an absent array.
pub open spec fn is_null_text(text: Seq<char>) -> bool {
    text == "null"@
}

/// How a `stanumbers` text is loaded: NULL when absent, else `float4[]`.
pub open spec fn numbers_column_spec(text: Seq<char>) -> ArrayColumn {
    if is_null_text(text) {
        ArrayColumn::Null
    } else {
        ArrayColumn::Float4Array
    }
}

/// How a `stavalues` text of element type `typ` is loaded; `None` for an
/// element type that cannot be loaded (`numeric` values are read as
/// `float4`).
pub open spec fn values_column_spec(typ: u32, text: Seq<char>) -> Option<ArrayColumn> {
    if is_null_text(text) {
        Some(ArrayColumn::Null)
    } else if typ == DATEOID {
        Some(ArrayColumn::DateArray)
    } else if typ == VARCHAROID {
        Some(ArrayColumn::VarcharArray)
    } else if typ == NUMERICOID || typ == FLOAT4OID {
        Some(ArrayColumn::Float4Array)
    } else if typ == FLOAT8OID {
        Some(ArrayColumn::Float8Array)
    } else if typ == INT4OID {
        Some(ArrayColumn::Int4Array)
    } else if typ == INT8OID {
        Some(ArrayColumn::Int8Array)
    } else {
        None
    }
}

/// How a `stanumbers` text is loaded.
pub fn numbers_column(text: &str) -> (r: ArrayColumn)
    ensures
        r == numbers_column_spec(text@),
{
    if str_eq(text, "null") {
        ArrayColumn::Null
    } else {
        ArrayColumn::Float4Array
    }
}

/// How a `stavalues` text of element type `typ` is loaded.
pub fn values_column(typ: u32, text: &str) -> (r: Option<ArrayColumn>)
    ensures
        r == values_column_spec(typ, text@),
{
    if str_eq(text, "null") {
        Some(ArrayColumn::Null)
    } else if typ == DATEOID {
        Some(ArrayColumn::DateArray)
    } else if typ == VARCHAROID {
        Some(ArrayColumn::VarcharArray)
    } else if typ == NUMERICOID || typ == FLOAT4OID {
        Some(ArrayColumn::Float4Array)
    } else if typ == FLOAT8OID {
        Some(ArrayColumn::Float8Array)
    } else if typ == INT4OID {
        Some(ArrayColumn::Int4Array)
    } else if typ == INT8OID {
        Some(ArrayColumn::Int8Array)
    } else {
        None
    }
}

/// The first slot, from `k` on, whose `stavalues` cannot be loaded.
pub open spec fn first_unloadable_from(slots: Seq<StatSlot>, k: int) -> Option<int>
    decreases slots.len() - k,
{
    if k < 0 || k >= slots.len() {
        None
    } else if values_column_spec(slots[k].values_type, slots[k].values@) is None {
        Some(k)
    } else {
        first_unloadable_from(slots, k + 1)
    }
}

/// The array columns of a `pg_statistic` row, in column order
/// (`stanumbers1..5`, then `stavalues1..5`), as they are to be loaded; or
/// the element type of the first slot whose values cannot be loaded.
pub fn statistic_array_columns(row: &PgStatisticRow) -> (r: Result<Vec<ArrayColumn>, u32>)
    requires
        row.wf(),
    ensures
        match first_unloadable_from(row.slots@, 0) {
            Some(k) => r == Err::<Vec<ArrayColumn>, u32>(row.slots@[k].values_type),
            None => r matches Ok(cols) && {
                &&& cols@.len() == 2 * NUM_SLOTS
                &&& forall|k: int|
                    0 <= k < NUM_SLOTS ==> cols@[k] == numbers_column_spec(
                        #[trigger] row.slots@[k].numbers@,
                    )
                &&& forall|k: int|
                    0 <= k < NUM_SLOTS ==> Some(cols@[NUM_SLOTS + k]) == values_column_spec(
                        (#[trigger] row.slots@[k]).values_type,
                        row.slots@[k].values@,
                    )
            },
        },
{
    let mut cols: Vec<ArrayColumn> = Vec::new();
    let mut k: usize = 0;
    while k < NUM_SLOTS
        invariant
            row.wf(),
            k <= NUM_SLOTS,
            cols@.len() == k,
            forall|j: int| 0 <= j < k ==> cols@[j] == numbers_column_spec(#[trigger] row.slots@[j].numbers@),
        decreases NUM_SLOTS - k,
    {
        cols.push(numbers_column(row.slots[k].numbers.as_str()));
        k = k + 1;
    }
    let mut k: usize = 0;
    while k < NUM_SLOTS
        invariant
            row.wf(),
            k <= NUM_SLOTS,
            cols@.len() == NUM_SLOTS + k,
            forall|j: int| 0 <= j < NUM_SLOTS ==> cols@[j] == numbers_column_spec(#[trigger] row.slots@[j].numbers@),
            forall|j: int|
                0 <= j < k ==> Some(cols@[NUM_SLOTS + j]) == values_column_spec(
                    (#[trigger] row.slots@[j]).values_type,
                    row.slots@[j].values@,
                ),
            first_unloadable_from(row.slots@, 0) == first_unloadable_from(row.slots@, k as int),
        decreases NUM_SLOTS - k,
    {
        let slot = &row.slots[k];
        match values_column(slot.values_type, slot.values.as_str()) {
            Some(c) => cols.push(c),
            None => return Err(slot.values_type),
        }
        assert(first_unloadable_from(row.slots@, k as int) == first_unloadable_from(row.slots@, k + 1));
        k = k + 1;
    }
    Ok(cols)
}

/// The catalog a dumped row is written to.
#[derive(Debug, Clone, Copy, PartialEq, Eq, Structural)]
pub enum Catalog {
    Class,
    Attribute,
    Statistic,
}

/// What loading a row does to the catalog.
#[derive(Debug, Clone, Copy, PartialEq, Eq, Structural)]
pub enum WriteAction {
    /// Overwrite the row that is there.
    Update,
    /// Add a new row.
    Insert,
    /// Leave the row that is there untouched.
    KeepExisting,
}

/// What loading a row does: a new row is inserted; an existing `pg_class`
/// or `pg_statistic` row is overwritten, an existing `pg_attribute` row is
/// kept as it is.
pub open spec fn write_action_spec(catalog: Catalog, exists: bool) -> WriteAction {
    if !exists {
        WriteAction::Insert
    } else if catalog == Catalog::Attribute {
        WriteAction::KeepExisting
    } else {
        WriteAction::Update
    }
}

/// Decides what loading a row does, given whether the catalog already
/// holds a row with the same key.
pub fn write_action(catalog: Catalog, exists: bool) -> (r: WriteAction)
    ensures
        r == write_action_spec(catalog, exists),
{
    if !exists {
        WriteAction::Insert
    } else {
        match catalog {
            Catalog::Attribute => WriteAction::KeepExisting,
            _ => WriteAction::Update,
        }
    }
}

/// The null flags a catalog row starts with: its last `trailing` columns
/// (those the dump does not carry) are NULL, the others are not.
pub fn trailing_null_flags(natts: usize, trailing: usize) -> (r: Vec<bool>)
    requires
        trailing <= natts,
    ensures
        r@.len() == natts,
        forall|i: int| 0 <= i < natts ==> r@[i] == (i >= natts - trailing),
{
    let mut flags: Vec<bool> = Vec::new();
    let mut i: usize = 0;
    while i < natts
        invariant
            i <= natts,
            trailing <= natts,
            flags@.len() == i,
            forall|j: int| 0 <= j < i ==> flags@[j] == (j >= natts - trailing),
        decreases natts - i,
    {
        flags.push(i >= natts - trailing);
        i = i + 1;
    }
    flags
}

/// A relation's size as the planner sees it: its number of pages and the
/// bit pattern of its `f64` number of tuples.
pub type RelSize = (u32, u64);

/// The relation sizes recorded by loads of `pg_class` rows, which the
/// planner is shown in place of the sizes it measures.
pub struct RelSizeOverrides {
    sizes: HashMap<u32, RelSize>,
}

impl View for RelSizeOverrides {
    type V = Map<u32, RelSize>;

    closed spec fn view(&self) -> Map<u32, RelSize> {
        self.sizes@
    }
}

impl RelSizeOverrides {
    /// No sizes recorded.
    pub fn new() -> (r: Self)
        ensures
            r@ == Map::<u32, RelSize>::empty(),
    {
        RelSizeOverrides { sizes: HashMap::new() }
    }

    /// Records the size of relation `oid` from its loaded `pg_class` row:
    /// `relpages` as a block count (its bits read as unsigned) and the
    /// tuple count's `f64` bit pattern.
    pub fn record(&mut self, oid: u32, relpages: i32, reltuples_bits: u64)
        ensures
            final(self)@ == old(self)@.insert(oid, (relpages as u32, reltuples_bits)),
    {
        broadcast use vstd::std_specs::hash::group_hash_axioms;

        let pages: u32 = relpages as u32;
        self.sizes.insert(oid, (pages, reltuples_bits));
    }

    /// The recorded size of relation `oid`, if any.
    pub fn lookup(&self, oid: u32) -> (r: Option<RelSize>)
        ensures
            r == (if self@.contains_key(oid) { Some(self@[oid]) } else { None::<RelSize> }),
    {
        broadcast use vstd::std_specs::hash::group_hash_axioms;

        match self.sizes.get(&oid) {
            Some(s) => Some(*s),
            None => None,
        }
    }

    /// The size the planner is given for relation `oid` whose measured
    /// size is `measured`: the recorded one where there is one.
    pub fn planner_size(&self, oid: u32, measured: RelSize) -> (r: RelSize)
        ensures
            r == (if self@.contains_key(oid) { self@[oid] } else { measured }),
    {
        match self.lookup(oid) {
            Some(s) => s,
            None => measured,
        }
    }
}

/// After a `pg_class` row of relation `oid` is loaded, the planner is shown
/// the loaded size of `oid`, and every other relation keeps the size it
/// was shown before.
pub proof fn law_planner_sees_loaded_size(
    before: Map<u32, RelSize>,
    oid: u32,
    relpages: i32,
    reltuples_bits: u64,
    other: u32,
    measured: RelSize,
)
    ensures
        ({
            let after = before.insert(oid, (relpages as u32, reltuples_bits));
            let shown = |m: Map<u32, RelSize>, o: u32|
                if m.contains_key(o) { m[o] } else { measured };
            &&& shown(after, oid) == (relpages as u32, reltuples_bits)
            &&& other != oid ==> shown(after, other) == shown(before, other)
        }),
{
}


/// Loading a row whose key the catalog does not hold inserts it, whatever
/// the catalog; loading over an existing row overwrites it for `pg_class`
/// and `pg_statistic`, and keeps the existing row for `pg_attribute`.
pub proof fn law_write_action(catalog: Catalog)
    ensures
        write_action_spec(catalog, false) == WriteAction::Insert,
        catalog == Catalog::Attribute ==> write_action_spec(catalog, true) == WriteAction::KeepExisting,
        catalog != Catalog::Attribute ==> write_action_spec(catalog, true) == WriteAction::Update,
{
}

/// An array column is loaded as NULL exactly when its text is `null`. A
/// present `stanumbers` array is loaded as `float4[]`; a present
/// `stavalues` array is loaded as the array type of its element type
/// (`numeric` values as `float4[]`), and an element type outside `date`,
/// `varchar`, `numeric`, `float4`, `float8`, `int4`, `int8` cannot be
/// loaded.
pub proof fn law_array_column_types(typ: u32, text: Seq<char>)
    ensures
        (numbers_column_spec(text) == ArrayColumn::Null) == (text == "null"@),
        text != "null"@ ==> numbers_column_spec(text) == ArrayColumn::Float4Array,
        text == "null"@ ==> values_column_spec(typ, text) == Some(ArrayColumn::Null),
        text != "null"@ ==> values_column_spec(typ, text) == (if typ == 1082 {
            Some(ArrayColumn::DateArray)
        } else if typ == 1043 {
            Some(ArrayColumn::VarcharArray)
        } else if typ == 1700 || typ == 700 {
            Some(ArrayColumn::Float4Array)
        } else if typ == 701 {
            Some(ArrayColumn::Float8Array)
        } else if typ == 23 {
            Some(ArrayColumn::Int4Array)
        } else if typ == 20 {
            Some(ArrayColumn::Int8Array)
        } else {
            None
        }),
{
}


/// The slot reported as unloadable is the first slot whose values cannot
/// be loaded; when none is reported every slot's values can be loaded.
pub proof fn law_first_unloadable(slots: Seq<StatSlot>, k: int)
    requires
        0 <= k,
    ensures
        first_unloadable_from(slots, k) matches Some(u) ==> {
            &&& k <= u < slots.len()
            &&& values_column_spec(slots[u].values_type, slots[u].values@) is None
            &&& forall|j: int| k <= j < u ==> values_column_spec(slots[j].values_type, slots[j].values@) is Some
        },
        first_unloadable_from(slots, k) is None ==> forall|j: int|
            k <= j < slots.len() ==> values_column_spec(slots[j].values_type, slots[j].values@) is Some,
    decreases slots.len() - k,
{
    if k < slots.len() && values_column_spec(slots[k].values_type, slots[k].values@) is Some {
        law_first_unloadable(slots, k + 1);
    }
}

} // verus!
