//! The fixed schema of the network table.

use arrow::datatypes::DataType;
use arrow::datatypes::Field;
use arrow::datatypes::Schema;
use std::sync::Arc;
use vstd::prelude::*;

verus! {

/// Arrow's schema: an ordered list of fields. Its fields are read through
/// [`schema_fields`].
#[verifier::external_type_specification]
#[verifier::external_body]
pub struct ExSchema(Schema);

/// The logical type of a column of this library.
#[derive(Clone, Copy, Debug, PartialEq, Eq, Structural)]
pub enum ColumnType {
    Utf8,
    Boolean,
}

/// The declaration of one column: its name, its type and whether it may
/// hold nulls.
#[derive(Clone, Debug)]
pub struct Column {
    pub name: String,
    pub data_type: ColumnType,
    pub nullable: bool,
}

/// One field of a schema, as the library reads it. `data_type` is `None`
/// for an Arrow type other than strings with 32-bit offsets and booleans.
pub struct FieldView {
    pub name: Seq<char>,
    pub data_type: Option<ColumnType>,
    pub nullable: bool,
}

impl View for Column {
    type V = FieldView;

    open spec fn view(&self) -> FieldView {
        FieldView { name: self.name@, data_type: Some(self.data_type), nullable: self.nullable }
    }
}

/// One field as it is read out of a schema.
#[derive(Clone, Debug)]
pub struct FieldInfo {
    pub name: String,
    /// `None` for an Arrow type that no column of this library has.
    pub data_type: Option<ColumnType>,
    pub nullable: bool,
}

impl View for FieldInfo {
    type V = FieldView;

    open spec fn view(&self) -> FieldView {
        FieldView { name: self.name@, data_type: self.data_type, nullable: self.nullable }
    }
}

/// The fields of an Arrow schema, in the schema's order.
pub uninterp spec fn schema_fields(schema: Schema) -> Seq<FieldView>;

/// Whether a schema is bare: neither the schema nor any of its fields
/// carries metadata.
pub uninterp spec fn schema_bare(schema: Schema) -> bool;

/// Whether every field has a type that a column of this library can have.
pub open spec fn all_typed(fields: Seq<FieldView>) -> bool {
    forall|i: int| 0 <= i < fields.len() ==> (#[trigger] fields[i]).data_type is Some
}

/// The fields that a list of fields read out of a schema stands for.
pub open spec fn infos_view(fields: Seq<FieldInfo>) -> Seq<FieldView> {
    Seq::new(fields.len(), |i: int| fields[i]@)
}

/// The fields that a list of column declarations stands for.
pub open spec fn fields_of(columns: Seq<Column>) -> Seq<FieldView> {
    Seq::new(columns.len(), |i: int| columns[i]@)
}

/// Calls `Schema::new` on one `Field::new` per column, in the columns'
/// order. The schema's fields are then those of the columns: same names,
/// types and nullability. Neither call attaches metadata, so the schema is
/// bare.
#[verifier::external_body]
fn schema_new(columns: &Vec<Column>) -> (schema: Schema)
    ensures
        schema_fields(schema) == fields_of(columns@),
        schema_bare(schema),
{
    let mut fields: Vec<Field> = Vec::with_capacity(columns.len());
    for column in columns.iter() {
        let data_type = match column.data_type {
            ColumnType::Utf8 => DataType::Utf8,
            ColumnType::Boolean => DataType::Boolean,
        };
        fields.push(Field::new(column.name.as_str(), data_type, column.nullable));
    }
    Schema::new(fields)
}

/// Reads `Schema::fields`: each field's `name`, `data_type` and
/// `is_nullable`, in the schema's order. A type other than `Utf8` and
/// `Boolean` is read as `None`.
#[verifier::external_body]
pub(crate) fn schema_read(schema: &Schema) -> (fields: Vec<FieldInfo>)
    ensures
        infos_view(fields@) == schema_fields(*schema),
{
    let mut fields: Vec<FieldInfo> = Vec::with_capacity(schema.fields().len());
    for field in schema.fields().iter() {
        let data_type = match field.data_type() {
            DataType::Utf8 => Some(ColumnType::Utf8),
            DataType::Boolean => Some(ColumnType::Boolean),
            _ => None,
        };
        fields.push(FieldInfo { name: field.name().clone(), data_type, nullable: field.is_nullable() });
    }
    fields
}

/// Whether two types read out of a schema are the same.
fn same_type(a: Option<ColumnType>, b: Option<ColumnType>) -> (same: bool)
    ensures
        same == (a == b),
{
    match (a, b) {
        (None, None) => true,
        (Some(ColumnType::Utf8), Some(ColumnType::Utf8)) => true,
        (Some(ColumnType::Boolean), Some(ColumnType::Boolean)) => true,
        _ => false,
    }
}

/// Whether two lists of fields agree: as many fields, and at each place the
/// same name, type and nullability.
pub fn same_fields(a: &Vec<FieldInfo>, b: &Vec<FieldInfo>) -> (same: bool)
    ensures
        same == (infos_view(a@) == infos_view(b@)),
{
    if a.len() != b.len() {
        assert(infos_view(a@).len() != infos_view(b@).len());
        return false;
    }
    let count: usize = a.len();
    let mut i: usize = 0;
    while i < count
        invariant
            i <= count,
            count == a@.len(),
            count == b@.len(),
            forall|j: int| 0 <= j < i ==> a@[j]@ == b@[j]@,
        decreases count - i,
    {
        let same = a[i].name == b[i].name && same_type(a[i].data_type, b[i].data_type)
            && a[i].nullable == b[i].nullable;
        if !same {
            assert(infos_view(a@)[i as int] != infos_view(b@)[i as int]);
            return false;
        }
        i = i + 1;
    }
    assert(infos_view(a@) =~= infos_view(b@));
    true
}

/// Whether every field of the list has a type that a column of this
/// library can have.
pub fn all_fields_typed(fields: &Vec<FieldInfo>) -> (typed: bool)
    ensures
        typed == all_typed(infos_view(fields@)),
{
    let count: usize = fields.len();
    let mut i: usize = 0;
    while i < count
        invariant
            i <= count,
            count == fields@.len(),
            forall|j: int| 0 <= j < i ==> (#[trigger] infos_view(fields@)[j]).data_type is Some,
        decreases count - i,
    {
        if fields[i].data_type.is_none() {
            assert(infos_view(fields@)[i as int].data_type is None);
            return false;
        }
        i = i + 1;
    }
    true
}

/// Calls `Arc::clone`: a second handle to the same schema.
#[verifier::external_body]
pub(crate) fn share_schema(schema: &Arc<Schema>) -> (shared: Arc<Schema>)
    ensures
        *shared == **schema,
{
    Arc::clone(schema)
}

/// A nullable field named `name` of type `data_type`.
pub open spec fn nullable_field(name: Seq<char>, data_type: ColumnType) -> FieldView {
    FieldView { name, data_type: Some(data_type), nullable: true }
}

/// The nine fields of the network table, in their fixed order.
pub open spec fn network_fields() -> Seq<FieldView> {
    seq![
        nullable_field("id"@, ColumnType::Utf8),
        nullable_field("name"@, ColumnType::Utf8),
        nullable_field("created"@, ColumnType::Utf8),
        nullable_field("scope"@, ColumnType::Utf8),
        nullable_field("driver"@, ColumnType::Utf8),
        nullable_field("enable_ipv6"@, ColumnType::Boolean),
        nullable_field("internal"@, ColumnType::Boolean),
        nullable_field("attachable"@, ColumnType::Boolean),
        nullable_field("ingress"@, ColumnType::Boolean),
    ]
}

fn nullable_column(name: &str, data_type: ColumnType) -> (column: Column)
    ensures
        column@ == nullable_field(name@, data_type),
{
    Column { name: name.to_owned(), data_type, nullable: true }
}

/// The schema of the network table: nine nullable columns, five of strings
/// and four of booleans, behind a shared handle.
pub fn network_schema() -> (schema: Arc<Schema>)
    ensures
        schema_fields(*schema) == network_fields(),
        schema_bare(*schema),
{
    let mut columns: Vec<Column> = Vec::new();
    columns.push(nullable_column("id", ColumnType::Utf8));
    columns.push(nullable_column("name", ColumnType::Utf8));
    columns.push(nullable_column("created", ColumnType::Utf8));
    columns.push(nullable_column("scope", ColumnType::Utf8));
    columns.push(nullable_column("driver", ColumnType::Utf8));
    columns.push(nullable_column("enable_ipv6", ColumnType::Boolean));
    columns.push(nullable_column("internal", ColumnType::Boolean));
    columns.push(nullable_column("attachable", ColumnType::Boolean));
    columns.push(nullable_column("ingress", ColumnType::Boolean));
    assert(fields_of(columns@) =~= network_fields());
    Arc::new(schema_new(&columns))
}

} // verus!
