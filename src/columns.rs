//! Arrow column builders, one per logical type, each with the cells that it
//! holds so far. A cell is `None` where the column holds a null.

use arrow_array::builder::{
    BooleanBuilder, StringBuilder, TimestampMicrosecondBuilder, UInt32Builder, UInt64Builder,
};
use vstd::prelude::*;
use vstd::utf8::encode_utf8;

verus! {

/// Largest number of value bytes that a string column can hold (its offsets are `i32`).
pub const MAX_UTF8_BYTES: u64 = 0x7fff_ffff;

/// A string column being built.
#[verifier::external_body]
pub struct Utf8Column {
    pub(crate) b: StringBuilder,
}

/// A `u64` column being built.
#[verifier::external_body]
pub struct U64Column {
    pub(crate) b: UInt64Builder,
}

/// A `u32` column being built.
#[verifier::external_body]
pub struct U32Column {
    pub(crate) b: UInt32Builder,
}

/// A boolean column being built.
#[verifier::external_body]
pub struct BoolColumn {
    pub(crate) b: BooleanBuilder,
}

/// A column of microseconds since the Unix epoch being built.
#[verifier::external_body]
pub struct MicrosColumn {
    pub(crate) b: TimestampMicrosecondBuilder,
}

/// The cells of a string column.
pub uninterp spec fn utf8_cells(c: Utf8Column) -> Seq<Option<Seq<char>>>;

/// The number of value bytes that a string column holds.
pub uninterp spec fn utf8_value_bytes(c: Utf8Column) -> nat;

/// The cells of a `u64` column.
pub uninterp spec fn u64_cells(c: U64Column) -> Seq<Option<u64>>;

/// The cells of a `u32` column.
pub uninterp spec fn u32_cells(c: U32Column) -> Seq<Option<u32>>;

/// The cells of a boolean column.
pub uninterp spec fn bool_cells(c: BoolColumn) -> Seq<Option<bool>>;

/// The cells of a timestamp column.
pub uninterp spec fn micros_cells(c: MicrosColumn) -> Seq<Option<i64>>;

impl Utf8Column {
    /// Relies on `GenericByteBuilder::new`: a new builder holds no value.
    #[verifier::external_body]
    pub(crate) fn new() -> (r: Utf8Column)
        ensures
            utf8_cells(r) == Seq::<Option<Seq<char>>>::empty(),
            utf8_value_bytes(r) == 0,
    {
        Utf8Column { b: StringBuilder::new() }
    }

    /// Relies on `GenericByteBuilder::append_value`: one present cell is added,
    /// and the value's UTF-8 bytes are added to the values buffer, whose length
    /// must stay within the `i32` offsets (beyond that the builder panics).
    #[verifier::external_body]
    pub(crate) fn append_value(&mut self, v: &str)
        requires
            utf8_value_bytes(*old(self)) + encode_utf8(v@).len() <= MAX_UTF8_BYTES,
        ensures
            utf8_cells(*final(self)) == utf8_cells(*old(self)).push(Some(v@)),
            utf8_value_bytes(*final(self)) == utf8_value_bytes(*old(self)) + encode_utf8(v@).len(),
    {
        self.b.append_value(v)
    }
}

impl U64Column {
    /// Relies on `PrimitiveBuilder::new`: a new builder holds no value.
    #[verifier::external_body]
    pub(crate) fn new() -> (r: U64Column)
        ensures
            u64_cells(r) == Seq::<Option<u64>>::empty(),
    {
        U64Column { b: UInt64Builder::new() }
    }

    /// Relies on `PrimitiveBuilder::append_value`: one present cell is added.
    #[verifier::external_body]
    pub(crate) fn append_value(&mut self, v: u64)
        ensures
            u64_cells(*final(self)) == u64_cells(*old(self)).push(Some(v)),
    {
        self.b.append_value(v)
    }
}

impl U32Column {
    /// Relies on `PrimitiveBuilder::new`: a new builder holds no value.
    #[verifier::external_body]
    pub(crate) fn new() -> (r: U32Column)
        ensures
            u32_cells(r) == Seq::<Option<u32>>::empty(),
    {
        U32Column { b: UInt32Builder::new() }
    }

    /// Relies on `PrimitiveBuilder::append_value`: one present cell is added.
    #[verifier::external_body]
    pub(crate) fn append_value(&mut self, v: u32)
        ensures
            u32_cells(*final(self)) == u32_cells(*old(self)).push(Some(v)),
    {
        self.b.append_value(v)
    }
}

impl BoolColumn {
    /// Relies on `BooleanBuilder::new`: a new builder holds no value.
    #[verifier::external_body]
    pub(crate) fn new() -> (r: BoolColumn)
        ensures
            bool_cells(r) == Seq::<Option<bool>>::empty(),
    {
        BoolColumn { b: BooleanBuilder::new() }
    }

    /// Relies on `BooleanBuilder::append_value`: one present cell is added.
    #[verifier::external_body]
    pub(crate) fn append_value(&mut self, v: bool)
        ensures
            bool_cells(*final(self)) == bool_cells(*old(self)).push(Some(v)),
    {
        self.b.append_value(v)
    }
}

impl MicrosColumn {
    /// Relies on `PrimitiveBuilder::new`: a new builder holds no value.
    #[verifier::external_body]
    pub(crate) fn new() -> (r: MicrosColumn)
        ensures
            micros_cells(r) == Seq::<Option<i64>>::empty(),
    {
        MicrosColumn { b: TimestampMicrosecondBuilder::new() }
    }

    /// Relies on `PrimitiveBuilder::append_option`: one cell is added, null
    /// for `None`.
    #[verifier::external_body]
    pub(crate) fn append_option(&mut self, v: Option<i64>)
        ensures
            micros_cells(*final(self)) == micros_cells(*old(self)).push(v),
    {
        self.b.append_option(v)
    }
}

} // verus!
