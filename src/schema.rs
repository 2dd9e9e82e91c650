//! The fixed schema of a directory listing, and its Arrow form.

use arrow_schema::{DataType, Field, Schema, TimeUnit};
use vstd::prelude::*;

verus! {

#[verifier::external_type_specification]
#[verifier::external_body]
pub struct ExSchema(Schema);

/// The logical types that a column of a listing can have.
#[derive(Clone, Copy, PartialEq, Eq, Debug, Structural)]
pub enum LogicalType {
    Utf8,
    UInt64,
    UInt32,
    Boolean,
    TimestampMicros,
}

/// A column descriptor: name, logical type and whether nulls are allowed.
pub struct FieldSpec {
    pub name: String,
    pub ty: LogicalType,
    pub nullable: bool,
}

/// What a field of a schema stands for: (name, type, nullable). The type is
/// `None` where it is none of the listing's logical types.
pub type FieldModel = (Seq<char>, Option<LogicalType>, bool);

impl FieldSpec {
    pub open spec fn model(&self) -> FieldModel {
        (self.name@, Some(self.ty), self.nullable)
    }
}

/// A field as read from an Arrow schema; `ty` is `None` for a type that is
/// none of the listing's logical types.
pub struct FieldInfo {
    pub name: String,
    pub ty: Option<LogicalType>,
    pub nullable: bool,
}

impl FieldInfo {
    pub open spec fn model(&self) -> FieldModel {
        (self.name@, self.ty, self.nullable)
    }
}

pub open spec fn info_models(fs: Seq<FieldInfo>) -> Seq<FieldModel> {
    fs.map_values(|f: FieldInfo| f.model())
}

/// Two field lists match where they agree in count and, field by field, in
/// name, type and nullability, and every type is one of the logical types.
pub open spec fn fields_match(a: Seq<FieldModel>, b: Seq<FieldModel>) -> bool {
    &&& a == b
    &&& forall|i: int| 0 <= i < a.len() ==> (#[trigger] a[i]).1 is Some
}

pub open spec fn field_models(fs: Seq<FieldSpec>) -> Seq<FieldModel> {
    fs.map_values(|f: FieldSpec| f.model())
}

/// The field list that an Arrow schema holds, in order.
pub uninterp spec fn schema_fields(s: Schema) -> Seq<FieldModel>;

/// The nine columns of a listing, in column order.
pub open spec fn dirent_field_models() -> Seq<FieldModel> {
    seq![
        ("basename"@, Some(LogicalType::Utf8), false),
        ("filetype"@, Some(LogicalType::Utf8), false),
        ("path"@, Some(LogicalType::Utf8), false),
        ("len"@, Some(LogicalType::UInt64), false),
        ("readonly"@, Some(LogicalType::Boolean), false),
        ("permissions"@, Some(LogicalType::UInt32), false),
        ("created"@, Some(LogicalType::TimestampMicros), true),
        ("accessed"@, Some(LogicalType::TimestampMicros), true),
        ("modified"@, Some(LogicalType::TimestampMicros), true),
    ]
}

fn field(name: &str, ty: LogicalType, nullable: bool) -> (r: FieldSpec)
    ensures
        r.model() == (name@, Some(ty), nullable),
{
    FieldSpec { name: name.to_owned(), ty, nullable }
}

/// The descriptors of the listing's columns.
pub fn dirent_fields() -> (r: Vec<FieldSpec>)
    ensures
        field_models(r@) == dirent_field_models(),
{
    let r = vec![
        field("basename", LogicalType::Utf8, false),
        field("filetype", LogicalType::Utf8, false),
        field("path", LogicalType::Utf8, false),
        field("len", LogicalType::UInt64, false),
        field("readonly", LogicalType::Boolean, false),
        field("permissions", LogicalType::UInt32, false),
        field("created", LogicalType::TimestampMicros, true),
        field("accessed", LogicalType::TimestampMicros, true),
        field("modified", LogicalType::TimestampMicros, true),
    ];
    assert(field_models(r@) =~= dirent_field_models());
    r
}

/// Relies on `Field::new` and `Schema::new`: the schema holds one field per
/// descriptor, in order, with its name, type and nullability.
#[verifier::external_body]
fn to_arrow_schema(fields: &Vec<FieldSpec>) -> (r: Schema)
    ensures
        schema_fields(r) == field_models(fields@),
{
    let fs: Vec<Field> = fields.iter().map(|f| {
        let dt = match f.ty {
            LogicalType::Utf8 => DataType::Utf8,
            LogicalType::UInt64 => DataType::UInt64,
            LogicalType::UInt32 => DataType::UInt32,
            LogicalType::Boolean => DataType::Boolean,
            LogicalType::TimestampMicros => DataType::Timestamp(TimeUnit::Microsecond, None),
        };
        Field::new(f.name.as_str(), dt, f.nullable)
    }).collect();
    Schema::new(fs)
}

/// Relies on `Schema::fields`, `Field::name`, `Field::data_type` and
/// `Field::is_nullable`: the fields in order, each type mapped to its
/// logical type, `None` for any other type.
#[verifier::external_body]
pub(crate) fn field_infos(s: &Schema) -> (r: Vec<FieldInfo>)
    ensures
        info_models(r@) == schema_fields(*s),
{
    s.fields().iter().map(|f| {
        let ty = match f.data_type() {
            DataType::Utf8 => Some(LogicalType::Utf8),
            DataType::UInt64 => Some(LogicalType::UInt64),
            DataType::UInt32 => Some(LogicalType::UInt32),
            DataType::Boolean => Some(LogicalType::Boolean),
            DataType::Timestamp(TimeUnit::Microsecond, None) => Some(LogicalType::TimestampMicros),
            _ => None,
        };
        FieldInfo { name: f.name().clone(), ty, nullable: f.is_nullable() }
    }).collect()
}

fn same_type(a: Option<LogicalType>, b: Option<LogicalType>) -> (r: bool)
    ensures
        r == (a == b && a is Some),
{
    match (a, b) {
        (Some(x), Some(y)) => x == y,
        _ => false,
    }
}

/// Whether two field lists match: same count, and per field the same name,
/// type and nullability, each type one of the logical types.
pub fn fields_equal(a: &Vec<FieldInfo>, b: &Vec<FieldInfo>) -> (r: bool)
    ensures
        r == fields_match(info_models(a@), info_models(b@)),
{
    if a.len() != b.len() {
        assert(info_models(a@).len() != info_models(b@).len());
        return false;
    }
    let mut i: usize = 0;
    while i < a.len()
        invariant
            a.len() == b.len(),
            0 <= i <= a.len(),
            forall|j: int| 0 <= j < i ==> info_models(a@)[j] == info_models(b@)[j] && (#[trigger] a@[j]).ty is Some,
        decreases a.len() - i,
    {
        let x = &a[i];
        let y = &b[i];
        if !(x.name == y.name && same_type(x.ty, y.ty) && x.nullable == y.nullable) {
            assert(!fields_match(info_models(a@), info_models(b@))) by {
                if fields_match(info_models(a@), info_models(b@)) {
                    assert(info_models(a@)[i as int] == info_models(b@)[i as int]);
                    assert(info_models(a@)[i as int].1 is Some);
                }
            }
            return false;
        }
        i = i + 1;
    }
    assert(info_models(a@) =~= info_models(b@));
    true
}

/// The Arrow schema of a listing: the nine columns of `dirent_fields`.
pub fn dirent_schema_full() -> (r: Schema)
    ensures
        schema_fields(r) == dirent_field_models(),
{
    let fields = dirent_fields();
    to_arrow_schema(&fields)
}

} // verus!
