//! From records to one columnar batch.

use arrow::array::Array;
use arrow::array::ArrayRef;
use arrow::array::BooleanArray;
use arrow::array::StringArray;
use arrow::datatypes::Schema;
use arrow::error::ArrowError;
use arrow::record_batch::RecordBatch;
use crate::column::array_cells;
use crate::column::flag_builder_append;
use crate::column::flag_builder_cells;
use crate::column::flag_builder_finish;
use crate::column::flag_builder_new;
use crate::column::text_builder_append;
use crate::column::text_builder_cells;
use crate::column::text_builder_finish;
use crate::column::text_builder_new;
use crate::column::ColumnArray;
use crate::error::Error;
use crate::record::columns_within_limit;
use crate::record::flag_cells;
use crate::record::lemma_utf8_size_prefix;
use crate::record::network_columns;
use crate::record::records_of;
use crate::record::text_cells;
use crate::record::texts_view;
use crate::record::ColumnView;
use crate::record::Network;
use crate::record::NetworkView;
use crate::schema::schema_fields;
use crate::schema::ColumnType;
use crate::schema::FieldView;
use std::sync::Arc;
use vstd::prelude::*;

verus! {

/// Arrow's record batch: a schema and equally long columns. Its fields are
/// read through [`batch_fields`], its columns through [`batch_columns`].
#[verifier::external_body]
pub struct Batch {
    pub(crate) inner: RecordBatch,
}

/// The fields of the schema that a batch was made with.
pub uninterp spec fn batch_fields(batch: Batch) -> Seq<FieldView>;

/// The columns of a batch, in the batch's order.
pub uninterp spec fn batch_columns(batch: Batch) -> Seq<ColumnView>;

/// The logical type of a column's cells.
pub open spec fn column_type(column: ColumnView) -> ColumnType {
    match column {
        ColumnView::Utf8(_) => ColumnType::Utf8,
        ColumnView::Boolean(_) => ColumnType::Boolean,
    }
}

/// Whether columns can form a batch under the given fields: there is at
/// least one column, as many fields as columns, all columns are equally
/// long, and each column has its field's type and holds a null only where
/// the field is nullable.
pub open spec fn columns_fit(fields: Seq<FieldView>, columns: Seq<ColumnView>) -> bool {
    &&& columns.len() > 0
    &&& fields.len() == columns.len()
    &&& forall|i: int| 0 <= i < columns.len() ==> (#[trigger] columns[i]).len() == columns[0].len()
    &&& forall|i: int|
        0 <= i < columns.len() ==> (#[trigger] fields[i]).data_type == Some(
            column_type(columns[i]),
        )
    &&& forall|i: int|
        0 <= i < columns.len() ==> (#[trigger] fields[i]).nullable || !columns[i].has_null()
}

/// What a list of finished arrays holds, array by array.
pub open spec fn arrays_view(arrays: Seq<ColumnArray>) -> Seq<ColumnView> {
    Seq::new(arrays.len(), |i: int| array_cells(arrays[i]))
}

/// Calls `RecordBatch::try_new` on the schema and the arrays. Arrow accepts
/// them exactly where [`columns_fit`] holds; the batch then has the
/// schema's fields and the arrays as its columns, in the order given.
#[verifier::external_body]
fn batch_try_new(schema: Arc<Schema>, arrays: Vec<ColumnArray>) -> (made: Result<
    Batch,
    ArrowError,
>)
    ensures
        made is Ok <==> columns_fit(schema_fields(*schema), arrays_view(arrays@)),
        made matches Ok(batch) ==> batch_fields(batch) == schema_fields(*schema) && batch_columns(
            batch,
        ) == arrays_view(arrays@),
{
    let columns: Vec<ArrayRef> = arrays.into_iter().map(|array| array.inner).collect();
    RecordBatch::try_new(schema, columns).map(|inner| Batch { inner })
}

/// Calls `RecordBatch::num_columns`: the number of the batch's columns.
#[verifier::external_body]
fn batch_num_columns(batch: &Batch) -> (count: usize)
    ensures
        count == batch_columns(*batch).len(),
{
    batch.inner.num_columns()
}

/// Calls `RecordBatch::num_rows`: the row count that the batch was made
/// with, which is the length of its first column.
#[verifier::external_body]
fn batch_num_rows(batch: &Batch) -> (count: usize)
    ensures
        batch_columns(*batch).len() > 0 ==> count == batch_columns(*batch)[0].len(),
{
    batch.inner.num_rows()
}

/// Calls `RecordBatch::schema`: a handle to the schema that the batch was
/// made with.
#[verifier::external_body]
fn batch_schema(batch: &Batch) -> (schema: Arc<Schema>)
    ensures
        schema_fields(*schema) == batch_fields(*batch),
{
    batch.inner.schema()
}

/// Reads a column through `RecordBatch::column`, which panics beyond the
/// last column. A string column hands out its cells in their order, each
/// string copied and each null as `None`; a column of another type hands
/// out nothing.
#[verifier::external_body]
fn batch_text_cells(batch: &Batch, column: usize) -> (cells: Option<Vec<Option<String>>>)
    requires
        column < batch_columns(*batch).len(),
    ensures
        match batch_columns(*batch)[column as int] {
            ColumnView::Utf8(held) => cells matches Some(read) && texts_view(read@) == held,
            ColumnView::Boolean(_) => cells is None,
        },
{
    let array = batch.inner.column(column).as_any().downcast_ref::<StringArray>()?;
    Some(array.iter().map(|cell| cell.map(str::to_owned)).collect())
}

/// Reads a column through `RecordBatch::column`, which panics beyond the
/// last column. A boolean column hands out its cells in their order, each
/// null as `None`; a column of another type hands out nothing.
#[verifier::external_body]
fn batch_flag_cells(batch: &Batch, column: usize) -> (cells: Option<Vec<Option<bool>>>)
    requires
        column < batch_columns(*batch).len(),
    ensures
        match batch_columns(*batch)[column as int] {
            ColumnView::Utf8(_) => cells is None,
            ColumnView::Boolean(held) => cells matches Some(read) && read@ == held,
        },
{
    let array = batch.inner.column(column).as_any().downcast_ref::<BooleanArray>()?;
    Some(array.iter().collect())
}

impl Batch {
    /// A handle to the schema that the batch was made with.
    pub fn schema(&self) -> (schema: Arc<Schema>)
        ensures
            schema_fields(*schema) == batch_fields(*self),
    {
        batch_schema(self)
    }

    /// The cells of string column `column`, in row order, and `None` where
    /// the batch has no such column or the column holds booleans.
    pub fn text_column(&self, column: usize) -> (cells: Option<Vec<Option<String>>>)
        ensures
            cells is Some <==> column < batch_columns(*self).len() && batch_columns(
                *self,
            )[column as int] is Utf8,
            cells matches Some(read) ==> batch_columns(*self)[column as int] == ColumnView::Utf8(
                texts_view(read@),
            ),
    {
        if column < batch_num_columns(self) {
            batch_text_cells(self, column)
        } else {
            None
        }
    }

    /// The cells of boolean column `column`, in row order, and `None` where
    /// the batch has no such column or the column holds strings.
    pub fn flag_column(&self, column: usize) -> (cells: Option<Vec<Option<bool>>>)
        ensures
            cells is Some <==> column < batch_columns(*self).len() && batch_columns(
                *self,
            )[column as int] is Boolean,
            cells matches Some(read) ==> batch_columns(*self)[column as int]
                == ColumnView::Boolean(read@),
    {
        if column < batch_num_columns(self) {
            batch_flag_cells(self, column)
        } else {
            None
        }
    }

    /// The number of columns.
    pub fn num_columns(&self) -> (count: usize)
        ensures
            count == batch_columns(*self).len(),
    {
        batch_num_columns(self)
    }

    /// The number of rows: the length of the first column, and so of every
    /// column of a batch that a conversion returned.
    pub fn num_rows(&self) -> (count: usize)
        ensures
            batch_columns(*self).len() > 0 ==> count == batch_columns(*self)[0].len(),
    {
        batch_num_rows(self)
    }
}

/// What a conversion of `records` under `fields` returns: a batch exactly
/// where the fields fit the nine columns of the records, and then one with
/// those fields and those columns; a failure of the `Io` kind otherwise.
pub open spec fn is_conversion(
    records: Seq<NetworkView>,
    fields: Seq<FieldView>,
    converted: Result<Batch, Error>,
) -> bool {
    &&& converted is Ok <==> columns_fit(fields, network_columns(records))
    &&& converted matches Ok(batch) ==> batch_fields(batch) == fields && batch_columns(batch)
        == network_columns(records)
    &&& converted matches Err(failure) ==> failure is Io
}

/// Converts the records into one batch of nine columns under `schema`.
///
/// The batch holds, column by column and row by row, exactly the fields of
/// the records: an absent field is a null cell. The conversion succeeds
/// exactly where the schema fits the nine columns; every failure is of the
/// `Io` kind.
pub fn networks2batch(networks: Vec<Network>, schema: Arc<Schema>) -> (converted: Result<
    Batch,
    Error,
>)
    requires
        columns_within_limit(records_of(networks@)),
    ensures
        is_conversion(records_of(networks@), schema_fields(*schema), converted),
        converted matches Ok(batch) ==> {
            &&& batch_columns(batch).len() == 9
            &&& forall|column: int|
                0 <= column < 9 ==> (#[trigger] batch_columns(batch)[column]).len()
                    == networks@.len()
        },
{
    let ghost records = records_of(networks@);
    let mut id = text_builder_new();
    let mut name = text_builder_new();
    let mut created = text_builder_new();
    let mut scope = text_builder_new();
    let mut driver = text_builder_new();
    let mut enable_ipv6 = flag_builder_new();
    let mut internal = flag_builder_new();
    let mut attachable = flag_builder_new();
    let mut ingress = flag_builder_new();

    let count: usize = networks.len();
    let mut row: usize = 0;
    while row < count
        invariant
            row <= count,
            count == networks@.len(),
            records == records_of(networks@),
            columns_within_limit(records),
            text_builder_cells(id) == text_cells(records, 0).take(row as int),
            text_builder_cells(name) == text_cells(records, 1).take(row as int),
            text_builder_cells(created) == text_cells(records, 2).take(row as int),
            text_builder_cells(scope) == text_cells(records, 3).take(row as int),
            text_builder_cells(driver) == text_cells(records, 4).take(row as int),
            flag_builder_cells(enable_ipv6) == flag_cells(records, 5).take(row as int),
            flag_builder_cells(internal) == flag_cells(records, 6).take(row as int),
            flag_builder_cells(attachable) == flag_cells(records, 7).take(row as int),
            flag_builder_cells(ingress) == flag_cells(records, 8).take(row as int),
        decreases count - row,
    {
        let network = &networks[row];
        proof {
            assert(records[row as int] == network@);
            lemma_utf8_size_prefix(text_cells(records, 0), row as int);
            lemma_utf8_size_prefix(text_cells(records, 0), row as int + 1);
            lemma_utf8_size_prefix(text_cells(records, 1), row as int);
            lemma_utf8_size_prefix(text_cells(records, 1), row as int + 1);
            lemma_utf8_size_prefix(text_cells(records, 2), row as int);
            lemma_utf8_size_prefix(text_cells(records, 2), row as int + 1);
            lemma_utf8_size_prefix(text_cells(records, 3), row as int);
            lemma_utf8_size_prefix(text_cells(records, 3), row as int + 1);
            lemma_utf8_size_prefix(text_cells(records, 4), row as int);
            lemma_utf8_size_prefix(text_cells(records, 4), row as int + 1);
        }
        text_builder_append(&mut id, &network.id);
        text_builder_append(&mut name, &network.name);
        text_builder_append(&mut created, &network.created);
        text_builder_append(&mut scope, &network.scope);
        text_builder_append(&mut driver, &network.driver);
        flag_builder_append(&mut enable_ipv6, network.enable_ipv6);
        flag_builder_append(&mut internal, network.internal);
        flag_builder_append(&mut attachable, network.attachable);
        flag_builder_append(&mut ingress, network.ingress);
        proof {
            let next = row as int + 1;
            assert(text_cells(records, 0).take(next) =~= text_cells(records, 0).take(
                row as int,
            ).push(network@.id));
            assert(text_cells(records, 1).take(next) =~= text_cells(records, 1).take(
                row as int,
            ).push(network@.name));
            assert(text_cells(records, 2).take(next) =~= text_cells(records, 2).take(
                row as int,
            ).push(network@.created));
            assert(text_cells(records, 3).take(next) =~= text_cells(records, 3).take(
                row as int,
            ).push(network@.scope));
            assert(text_cells(records, 4).take(next) =~= text_cells(records, 4).take(
                row as int,
            ).push(network@.driver));
            assert(flag_cells(records, 5).take(next) =~= flag_cells(records, 5).take(
                row as int,
            ).push(network@.enable_ipv6));
            assert(flag_cells(records, 6).take(next) =~= flag_cells(records, 6).take(
                row as int,
            ).push(network@.internal));
            assert(flag_cells(records, 7).take(next) =~= flag_cells(records, 7).take(
                row as int,
            ).push(network@.attachable));
            assert(flag_cells(records, 8).take(next) =~= flag_cells(records, 8).take(
                row as int,
            ).push(network@.ingress));
        }
        row = row + 1;
    }

    proof {
        assert(text_cells(records, 0).take(count as int) =~= text_cells(records, 0));
        assert(text_cells(records, 1).take(count as int) =~= text_cells(records, 1));
        assert(text_cells(records, 2).take(count as int) =~= text_cells(records, 2));
        assert(text_cells(records, 3).take(count as int) =~= text_cells(records, 3));
        assert(text_cells(records, 4).take(count as int) =~= text_cells(records, 4));
        assert(flag_cells(records, 5).take(count as int) =~= flag_cells(records, 5));
        assert(flag_cells(records, 6).take(count as int) =~= flag_cells(records, 6));
        assert(flag_cells(records, 7).take(count as int) =~= flag_cells(records, 7));
        assert(flag_cells(records, 8).take(count as int) =~= flag_cells(records, 8));
    }

    let mut arrays: Vec<ColumnArray> = Vec::new();
    arrays.push(text_builder_finish(&mut id));
    arrays.push(text_builder_finish(&mut name));
    arrays.push(text_builder_finish(&mut created));
    arrays.push(text_builder_finish(&mut scope));
    arrays.push(text_builder_finish(&mut driver));
    arrays.push(flag_builder_finish(&mut enable_ipv6));
    arrays.push(flag_builder_finish(&mut internal));
    arrays.push(flag_builder_finish(&mut attachable));
    arrays.push(flag_builder_finish(&mut ingress));
    assert(arrays_view(arrays@) =~= network_columns(records));

    match batch_try_new(schema, arrays) {
        Ok(batch) => Ok(batch),
        Err(error) => Err(Error::from_arrow(&error)),
    }
}

} // verus!
