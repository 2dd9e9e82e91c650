//! Building one record batch from a listing: nine column builders, one row
//! per entry in input order, and fail-fast on the first entry error.

use crate::columns::{
    bool_cells, micros_cells, u32_cells, u64_cells, utf8_cells, utf8_value_bytes, BoolColumn,
    MicrosColumn, U32Column, U64Column, Utf8Column, MAX_UTF8_BYTES,
};
use crate::entry::{filetype_of, filetype_tag, micros_cell, timestamp_micros, DirentInfo};
use crate::schema::{dirent_field_models, dirent_schema_full, schema_fields, FieldModel};
use arrow_array::builder::ArrayBuilder;
use arrow_array::{ArrayRef, RecordBatch};
use arrow_schema::{ArrowError, Schema};
use std::sync::Arc;
use vstd::prelude::*;
use vstd::utf8::encode_utf8;

verus! {

/// A finished record batch of a listing.
#[verifier::external_body]
pub struct DirentBatch {
    pub record: RecordBatch,
}

#[verifier::external_type_specification]
#[verifier::external_body]
pub struct ExArrowError(ArrowError);

/// The cells of one column, by logical type; `None` is a null.
pub enum ColumnCells {
    Utf8(Seq<Option<Seq<char>>>),
    UInt64(Seq<Option<u64>>),
    UInt32(Seq<Option<u32>>),
    Boolean(Seq<Option<bool>>),
    TimestampMicros(Seq<Option<i64>>),
}

impl ColumnCells {
    pub open spec fn len(self) -> nat {
        match self {
            ColumnCells::Utf8(s) => s.len(),
            ColumnCells::UInt64(s) => s.len(),
            ColumnCells::UInt32(s) => s.len(),
            ColumnCells::Boolean(s) => s.len(),
            ColumnCells::TimestampMicros(s) => s.len(),
        }
    }

    /// Whether cell `j` is null.
    pub open spec fn is_null(self, j: int) -> bool {
        match self {
            ColumnCells::Utf8(s) => s[j] is None,
            ColumnCells::UInt64(s) => s[j] is None,
            ColumnCells::UInt32(s) => s[j] is None,
            ColumnCells::Boolean(s) => s[j] is None,
            ColumnCells::TimestampMicros(s) => s[j] is None,
        }
    }
}

/// The columns of a record batch, in schema order.
pub uninterp spec fn batch_columns(b: DirentBatch) -> Seq<ColumnCells>;

/// The number of rows of a record batch.
pub uninterp spec fn batch_num_rows(b: DirentBatch) -> nat;

/// The fields of a record batch's schema.
pub uninterp spec fn batch_fields(b: DirentBatch) -> Seq<FieldModel>;

/// The nine columns of a listing over `rows`, row `j` from `rows[j]`.
pub open spec fn listing_columns(rows: Seq<DirentInfo>) -> Seq<ColumnCells> {
    seq![
        ColumnCells::Utf8(rows.map_values(|e: DirentInfo| Some(e.basename@))),
        ColumnCells::Utf8(rows.map_values(|e: DirentInfo| Some(filetype_of(e.kind)))),
        ColumnCells::Utf8(rows.map_values(|e: DirentInfo| Some(e.path@))),
        ColumnCells::UInt64(rows.map_values(|e: DirentInfo| Some(e.len))),
        ColumnCells::Boolean(rows.map_values(|e: DirentInfo| Some(e.readonly))),
        ColumnCells::UInt32(rows.map_values(|e: DirentInfo| Some(e.permissions))),
        ColumnCells::TimestampMicros(rows.map_values(|e: DirentInfo| micros_cell(e.created))),
        ColumnCells::TimestampMicros(rows.map_values(|e: DirentInfo| micros_cell(e.accessed))),
        ColumnCells::TimestampMicros(rows.map_values(|e: DirentInfo| micros_cell(e.modified))),
    ]
}

/// The string that string column `k` (0, 1 or 2) holds for an entry.
pub open spec fn string_cell(e: DirentInfo, k: int) -> Seq<char> {
    if k == 0 {
        e.basename@
    } else if k == 1 {
        filetype_of(e.kind)
    } else {
        e.path@
    }
}

/// UTF-8 bytes that string column `k` holds over the entries of `s` that are `Ok`.
pub open spec fn string_bytes<E>(s: Seq<Result<DirentInfo, E>>, k: int) -> nat
    decreases s.len(),
{
    if s.len() == 0 {
        0
    } else {
        string_bytes(s.drop_last(), k) + match s.last() {
            Ok(e) => encode_utf8(string_cell(e, k)).len(),
            Err(_) => 0,
        }
    }
}

/// Each string column of a listing fits the `i32` offsets of an Arrow string
/// array, counted over the entries before the first `Err`.
pub open spec fn strings_fit<E>(s: Seq<Result<DirentInfo, E>>) -> bool {
    forall|i: int, k: int|
        0 <= i <= s.len() && 0 <= k < 3 && all_ok(s.take(i)) ==> #[trigger] string_bytes(s.take(i), k)
            <= MAX_UTF8_BYTES
}

/// The values of a sequence of results that are all `Ok`.
pub open spec fn ok_values<E>(s: Seq<Result<DirentInfo, E>>) -> Seq<DirentInfo> {
    s.map_values(|r: Result<DirentInfo, E>| r->Ok_0)
}

/// Whether every result of `s` is `Ok`.
pub open spec fn all_ok<E>(s: Seq<Result<DirentInfo, E>>) -> bool {
    forall|j: int| 0 <= j < s.len() ==> s[j] is Ok
}

/// Whether `e` is the error of the first `Err` in `s`.
pub open spec fn is_first_error<E>(s: Seq<Result<DirentInfo, E>>, e: E) -> bool {
    exists|j: int|
        0 <= j < s.len() && s[j] == Err::<DirentInfo, E>(e) && all_ok(s.take(j))
}

/// Whether a listing's string columns fit an Arrow batch, as
/// `dirents2batch_full` requires.
#[verifier::loop_isolation(false)]
pub fn strings_fit_in_batch<E>(dirents: &Vec<Result<DirentInfo, E>>) -> (r: bool)
    ensures
        r == strings_fit(dirents@),
{
    let ghost s = dirents@;
    let mut totals: [u64; 3] = [0, 0, 0];
    let mut i: usize = 0;
    assert(s.take(0) =~= Seq::<Result<DirentInfo, E>>::empty());
    while i < dirents.len()
        invariant
            s == dirents@,
            0 <= i <= s.len(),
            all_ok(s.take(i as int)),
            forall|k: int| 0 <= k < 3 ==> #[trigger] totals@[k] == string_bytes(s.take(i as int), k),
            forall|j: int, k: int|
                0 <= j <= i && 0 <= k < 3 ==> #[trigger] string_bytes(s.take(j), k) <= MAX_UTF8_BYTES,
        decreases s.len() - i,
    {
        let ghost t = s.take(i as int + 1);
        proof {
            assert(t.drop_last() =~= s.take(i as int));
            assert(t.last() == s[i as int]);
        }
        match &dirents[i] {
            Ok(e) => {
                let lens: [usize; 3] = [
                    e.basename.as_str().as_bytes().len(),
                    filetype_tag(e.kind).as_bytes().len(),
                    e.path.as_str().as_bytes().len(),
                ];
                assert(all_ok(t));
                let mut k: usize = 0;
                while k < 3
                    invariant
                        0 <= k <= 3,
                        s[i as int] == Ok::<DirentInfo, E>(*e),
                        forall|j: int| 0 <= j < 3 ==> #[trigger] lens@[j] == encode_utf8(string_cell(*e, j)).len(),
                        forall|j: int| 0 <= j < k ==> #[trigger] totals@[j] == string_bytes(t, j),
                        forall|j: int| k <= j < 3 ==> #[trigger] totals@[j] == string_bytes(s.take(i as int), j),
                        forall|j: int| 0 <= j < 3 ==> #[trigger] totals@[j] <= MAX_UTF8_BYTES,
                    decreases 3 - k,
                {
                    if lens[k] as u64 > MAX_UTF8_BYTES - totals[k] {
                        assert(string_bytes(s.take(i as int + 1), k as int) > MAX_UTF8_BYTES);
                        return false;
                    }
                    totals[k] = totals[k] + lens[k] as u64;
                    k = k + 1;
                }
                assert forall|j: int, k: int| 0 <= j <= i + 1 && 0 <= k < 3 implies #[trigger] string_bytes(
                    s.take(j),
                    k,
                ) <= MAX_UTF8_BYTES by {
                    if j == i + 1 {
                        assert(totals@[k] == string_bytes(t, k));
                    }
                }
            },
            Err(_) => {
                assert forall|j: int, k: int|
                    0 <= j <= s.len() && 0 <= k < 3 && all_ok(s.take(j)) implies #[trigger] string_bytes(
                    s.take(j),
                    k,
                ) <= MAX_UTF8_BYTES by {
                    if j > i {
                        assert(s.take(j)[i as int] == s[i as int]);
                    }
                }
                return true;
            },
        }
        i = i + 1;
    }
    assert(s.take(i as int) =~= s);
    true
}

/// The nine column builders of a listing.
pub(crate) struct DirentColumns {
    pub(crate) basenames: Utf8Column,
    pub(crate) filetypes: Utf8Column,
    pub(crate) paths: Utf8Column,
    pub(crate) lens: U64Column,
    pub(crate) readonlies: BoolColumn,
    pub(crate) permissions: U32Column,
    pub(crate) createds: MicrosColumn,
    pub(crate) accesseds: MicrosColumn,
    pub(crate) modifieds: MicrosColumn,
}

impl DirentColumns {
    /// The cells of the nine builders, in schema order.
    pub(crate) open spec fn cells(self) -> Seq<ColumnCells> {
        seq![
            ColumnCells::Utf8(utf8_cells(self.basenames)),
            ColumnCells::Utf8(utf8_cells(self.filetypes)),
            ColumnCells::Utf8(utf8_cells(self.paths)),
            ColumnCells::UInt64(u64_cells(self.lens)),
            ColumnCells::Boolean(bool_cells(self.readonlies)),
            ColumnCells::UInt32(u32_cells(self.permissions)),
            ColumnCells::TimestampMicros(micros_cells(self.createds)),
            ColumnCells::TimestampMicros(micros_cells(self.accesseds)),
            ColumnCells::TimestampMicros(micros_cells(self.modifieds)),
        ]
    }

    /// Value bytes held by string column `k`.
    pub(crate) open spec fn string_bytes_held(self, k: int) -> nat {
        if k == 0 {
            utf8_value_bytes(self.basenames)
        } else if k == 1 {
            utf8_value_bytes(self.filetypes)
        } else {
            utf8_value_bytes(self.paths)
        }
    }

    /// Nine empty builders.
    pub(crate) fn new() -> (r: DirentColumns)
        ensures
            r.cells() == listing_columns(Seq::empty()),
            forall|k: int| 0 <= k < 3 ==> r.string_bytes_held(k) == 0,
    {
        let r = DirentColumns {
            basenames: Utf8Column::new(),
            filetypes: Utf8Column::new(),
            paths: Utf8Column::new(),
            lens: U64Column::new(),
            readonlies: BoolColumn::new(),
            permissions: U32Column::new(),
            createds: MicrosColumn::new(),
            accesseds: MicrosColumn::new(),
            modifieds: MicrosColumn::new(),
        };
        let ghost none = Seq::<DirentInfo>::empty();
        assert(r.cells() =~= listing_columns(none)) by {
            assert(none.map_values(|e: DirentInfo| Some(e.basename@)) =~= seq![]);
            assert(none.map_values(|e: DirentInfo| Some(filetype_of(e.kind))) =~= seq![]);
            assert(none.map_values(|e: DirentInfo| Some(e.path@)) =~= seq![]);
            assert(none.map_values(|e: DirentInfo| Some(e.len)) =~= seq![]);
            assert(none.map_values(|e: DirentInfo| Some(e.readonly)) =~= seq![]);
            assert(none.map_values(|e: DirentInfo| Some(e.permissions)) =~= seq![]);
            assert(none.map_values(|e: DirentInfo| micros_cell(e.created)) =~= seq![]);
            assert(none.map_values(|e: DirentInfo| micros_cell(e.accessed)) =~= seq![]);
            assert(none.map_values(|e: DirentInfo| micros_cell(e.modified)) =~= seq![]);
        }
        r
    }

    /// Appends the row of one entry.
    pub(crate) fn append_entry(&mut self, e: &DirentInfo, rows: Ghost<Seq<DirentInfo>>)
        requires
            old(self).cells() == listing_columns(rows@),
            utf8_value_bytes(old(self).basenames) + encode_utf8(e.basename@).len() <= MAX_UTF8_BYTES,
            utf8_value_bytes(old(self).filetypes) + encode_utf8(filetype_of(e.kind)).len() <= MAX_UTF8_BYTES,
            utf8_value_bytes(old(self).paths) + encode_utf8(e.path@).len() <= MAX_UTF8_BYTES,
        ensures
            final(self).cells() == listing_columns(rows@.push(*e)),
            forall|k: int|
                0 <= k < 3 ==> final(self).string_bytes_held(k) == old(self).string_bytes_held(k)
                    + encode_utf8(string_cell(*e, k)).len(),
    {
        let ghost r2 = rows@.push(*e);
        self.basenames.append_value(e.basename.as_str());
        self.filetypes.append_value(filetype_tag(e.kind));
        self.paths.append_value(e.path.as_str());
        self.lens.append_value(e.len);
        self.readonlies.append_value(e.readonly);
        self.permissions.append_value(e.permissions);
        self.createds.append_option(timestamp_micros(e.created));
        self.accesseds.append_option(timestamp_micros(e.accessed));
        self.modifieds.append_option(timestamp_micros(e.modified));
        assert(self.cells() =~= listing_columns(r2)) by {
            assert(utf8_cells(self.basenames) =~= r2.map_values(|e: DirentInfo| Some(e.basename@)));
            assert(utf8_cells(self.filetypes) =~= r2.map_values(|e: DirentInfo| Some(filetype_of(e.kind))));
            assert(utf8_cells(self.paths) =~= r2.map_values(|e: DirentInfo| Some(e.path@)));
            assert(u64_cells(self.lens) =~= r2.map_values(|e: DirentInfo| Some(e.len)));
            assert(bool_cells(self.readonlies) =~= r2.map_values(|e: DirentInfo| Some(e.readonly)));
            assert(u32_cells(self.permissions) =~= r2.map_values(|e: DirentInfo| Some(e.permissions)));
            assert(micros_cells(self.createds) =~= r2.map_values(|e: DirentInfo| micros_cell(e.created)));
            assert(micros_cells(self.accesseds) =~= r2.map_values(|e: DirentInfo| micros_cell(e.accessed)));
            assert(micros_cells(self.modifieds) =~= r2.map_values(|e: DirentInfo| micros_cell(e.modified)));
        }
    }
}

/// Relies on `ArrayBuilder::finish` of each builder and on `RecordBatch::try_new`:
/// when there are as many columns as fields, their types match the fields',
/// they have one length and no non-nullable field's column holds a null,
/// `try_new` succeeds, and the batch holds those columns, their row count and
/// the schema's fields.
#[verifier::external_body]
fn assemble(schema: Schema, cols: DirentColumns) -> (r: Result<DirentBatch, ArrowError>)
    requires
        schema_fields(schema) == dirent_field_models(),
        forall|k: int| 0 <= k < 9 ==> #[trigger] cols.cells()[k].len() == cols.cells()[0].len(),
        forall|k: int, j: int|
            0 <= k < 6 && 0 <= j < cols.cells()[k].len() ==> !#[trigger] cols.cells()[k].is_null(j),
    ensures
        r is Ok,
        batch_columns(r->Ok_0) == cols.cells(),
        batch_num_rows(r->Ok_0) == cols.cells()[0].len(),
        batch_fields(r->Ok_0) == schema_fields(schema),
{
    let mut c = cols;
    let arrays: Vec<ArrayRef> = vec![
        ArrayBuilder::finish(&mut c.basenames.b),
        ArrayBuilder::finish(&mut c.filetypes.b),
        ArrayBuilder::finish(&mut c.paths.b),
        ArrayBuilder::finish(&mut c.lens.b),
        ArrayBuilder::finish(&mut c.readonlies.b),
        ArrayBuilder::finish(&mut c.permissions.b),
        ArrayBuilder::finish(&mut c.createds.b),
        ArrayBuilder::finish(&mut c.accesseds.b),
        ArrayBuilder::finish(&mut c.modifieds.b),
    ];
    RecordBatch::try_new(Arc::new(schema), arrays).map(|record| DirentBatch { record })
}

/// Every column of a listing has one cell per row.
pub proof fn lemma_listing_row_count(rows: Seq<DirentInfo>)
    ensures
        listing_columns(rows).len() == 9,
        forall|k: int| 0 <= k < 9 ==> #[trigger] listing_columns(rows)[k].len() == rows.len(),
{
}

/// Only the three timestamp columns of a listing hold nulls.
pub proof fn lemma_listing_nulls_only_in_timestamps(rows: Seq<DirentInfo>)
    ensures
        forall|k: int, j: int|
            0 <= k < 6 && 0 <= j < rows.len() ==> !#[trigger] listing_columns(rows)[k].is_null(j),
{
}

/// Builds the record batch of a listing: one row per entry, in input order.
/// Stops at the first `Err` and returns its error; no batch is made then.
#[verifier::loop_isolation(false)]
pub fn dirents2batch_full<E>(mut dirents: Vec<Result<DirentInfo, E>>) -> (r: Result<DirentBatch, E>)
    requires
        strings_fit(dirents@),
    ensures
        r is Ok <==> all_ok(dirents@),
        r is Err ==> is_first_error(dirents@, r->Err_0),
        r is Ok ==> {
            &&& batch_columns(r->Ok_0) == listing_columns(ok_values(dirents@))
            &&& batch_num_rows(r->Ok_0) == dirents@.len()
            &&& batch_fields(r->Ok_0) == dirent_field_models()
            &&& batch_columns(r->Ok_0).len() == 9
            &&& forall|k: int|
                0 <= k < 9 ==> #[trigger] batch_columns(r->Ok_0)[k].len() == dirents@.len()
            &&& forall|k: int, j: int|
                0 <= k < 6 && 0 <= j < dirents@.len() ==> !#[trigger] batch_columns(
                    r->Ok_0,
                )[k].is_null(j)
        },
{
    let ghost s = dirents@;
    let schema = dirent_schema_full();
    let mut cols = DirentColumns::new();
    let mut i: usize = 0;
    assert(ok_values(s.take(0)) =~= Seq::<DirentInfo>::empty());
    while i < dirents.len()
        invariant
            dirents@ == s,
            0 <= i <= s.len(),
            strings_fit(s),
            all_ok(s.take(i as int)),
            cols.cells() == listing_columns(ok_values(s.take(i as int))),
            forall|k: int|
                0 <= k < 3 ==> #[trigger] cols.string_bytes_held(k) == string_bytes(
                    s.take(i as int),
                    k,
                ),
            schema_fields(schema) == dirent_field_models(),
        decreases s.len() - i,
    {
        if dirents[i].is_err() {
            let failed = dirents.remove(i);
            match failed {
                Err(e) => {
                    assert(s[i as int] == Err::<DirentInfo, E>(e));
                    assert(!all_ok(s)) by {
                        assert(!(s[i as int] is Ok));
                    }
                    assert(is_first_error(s, e)) by {
                        assert(0 <= i < s.len() && s[i as int] == Err::<DirentInfo, E>(e) && all_ok(s.take(i as int)));
                    }
                    return Err(e);
                },
                Ok(_) => {
                    return unreached();
                },
            }
        }
        let ghost rows = ok_values(s.take(i as int));
        proof {
            let t = s.take(i as int + 1);
            assert(t.drop_last() =~= s.take(i as int));
            assert(all_ok(t));
            assert(string_bytes(t, 0) <= MAX_UTF8_BYTES);
            assert(string_bytes(t, 1) <= MAX_UTF8_BYTES);
            assert(string_bytes(t, 2) <= MAX_UTF8_BYTES);
            assert(cols.string_bytes_held(0) == string_bytes(s.take(i as int), 0));
            assert(cols.string_bytes_held(1) == string_bytes(s.take(i as int), 1));
            assert(cols.string_bytes_held(2) == string_bytes(s.take(i as int), 2));
        }
        match &dirents[i] {
            Ok(e) => {
                cols.append_entry(e, Ghost(rows));
            },
            Err(_) => {},
        }
        proof {
            let t = s.take(i as int + 1);
            assert(t.drop_last() =~= s.take(i as int));
            assert(ok_values(t) =~= rows.push(s[i as int]->Ok_0));
        }
        i = i + 1;
    }
    assert(s.take(i as int) =~= s);
    proof {
        lemma_listing_row_count(ok_values(s));
        lemma_listing_nulls_only_in_timestamps(ok_values(s));
    }
    match assemble(schema, cols) {
        Ok(b) => Ok(b),
        Err(_) => unreached(),
    }
}

} // verus!
