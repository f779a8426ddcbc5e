//! What holds of every conversion, stated over the models that the
//! contracts use.

use crate::batch::batch_columns;
use crate::batch::batch_fields;
use crate::batch::columns_fit;
use crate::batch::is_conversion;
use crate::batch::Batch;
use crate::error::Error;
use crate::record::network_columns;
use crate::record::ColumnView;
use crate::record::NetworkView;
use crate::schema::network_fields;
use crate::schema::FieldView;
use crate::writer::batch_message;
use crate::writer::batch_messages;
use crate::writer::complete_stream;
use crate::writer::end_marker;
use crate::writer::schema_message;
use crate::writer::stream_bytes;
use crate::writer::Message;
use vstd::prelude::*;

verus! {

/// The string cell of a column at a row; of a boolean column, none.
pub open spec fn text_cell(column: ColumnView, row: int) -> Option<Seq<char>> {
    match column {
        ColumnView::Utf8(cells) => cells[row],
        ColumnView::Boolean(_) => None,
    }
}

/// The boolean cell of a column at a row; of a string column, none.
pub open spec fn flag_cell(column: ColumnView, row: int) -> Option<bool> {
    match column {
        ColumnView::Utf8(_) => None,
        ColumnView::Boolean(cells) => cells[row],
    }
}

/// The record that a row of nine columns spells out.
pub open spec fn row_record(columns: Seq<ColumnView>, row: int) -> NetworkView {
    NetworkView {
        id: text_cell(columns[0], row),
        name: text_cell(columns[1], row),
        created: text_cell(columns[2], row),
        scope: text_cell(columns[3], row),
        driver: text_cell(columns[4], row),
        enable_ipv6: flag_cell(columns[5], row),
        internal: flag_cell(columns[6], row),
        attachable: flag_cell(columns[7], row),
        ingress: flag_cell(columns[8], row),
    }
}

/// The records that nine columns spell out, row by row.
pub open spec fn column_records(columns: Seq<ColumnView>) -> Seq<NetworkView> {
    Seq::new(columns[0].len(), |row: int| row_record(columns, row))
}

/// The names of the fields, in the fields' order.
pub open spec fn field_names(fields: Seq<FieldView>) -> Seq<Seq<char>> {
    Seq::new(fields.len(), |i: int| fields[i].name)
}

/// The records are laid out in nine columns, and each column has exactly
/// one cell per record, for every list of records, the empty one too.
pub proof fn lemma_one_cell_per_record(records: Seq<NetworkView>)
    ensures
        network_columns(records).len() == 9,
        forall|column: int|
            0 <= column < 9 ==> (#[trigger] network_columns(records)[column]).len()
                == records.len(),
{
}

/// Reading the nine columns of the records row by row gives the records
/// back, field for field: an absent field is read as absent, and a present
/// one as the same value.
pub proof fn lemma_columns_keep_records(records: Seq<NetworkView>)
    ensures
        column_records(network_columns(records)) == records,
{
    assert(column_records(network_columns(records)) =~= records);
}

/// The batch message of a complete stream of the records under the network
/// schema spells out the records, field for field and in their order.
pub proof fn lemma_stream_keeps_records(records: Seq<NetworkView>)
    ensures
        complete_stream(network_fields(), seq![network_columns(records)]).len() == 3,
        complete_stream(network_fields(), seq![network_columns(records)])[1] matches Message::Batch(
            columns,
        ) && column_records(columns) == records,
        complete_stream(network_fields(), seq![network_columns(records)])[2] is End,
{
    lemma_columns_keep_records(records);
}

/// The bytes of a complete stream of one batch are the schema message, the
/// batch's message and the end-of-stream marker, one behind the other, so
/// they depend on the fields and the columns alone.
pub proof fn lemma_stream_of_one_batch(fields: Seq<FieldView>, columns: Seq<ColumnView>)
    ensures
        stream_bytes(fields, seq![columns]) == schema_message(fields) + batch_message(columns)
            + end_marker(),
{
    let batches = seq![columns];
    assert(batches.drop_last() =~= Seq::<Seq<ColumnView>>::empty());
    assert(batch_messages(batches) =~= batch_message(columns)) by {
        reveal_with_fuel(batch_messages, 2);
    }
}

/// Two conversions of the same records under the same fields end alike:
/// both fail or both succeed, and two batches have the same fields and the
/// same columns, cell for cell.
pub proof fn lemma_conversion_is_repeatable(
    records: Seq<NetworkView>,
    fields: Seq<FieldView>,
    first: Result<Batch, Error>,
    second: Result<Batch, Error>,
)
    requires
        is_conversion(records, fields, first),
        is_conversion(records, fields, second),
    ensures
        first is Ok <==> second is Ok,
        first matches Ok(one) ==> second matches Ok(other) ==> batch_fields(one) == batch_fields(
            other,
        ) && batch_columns(one) == batch_columns(other),
{
}

/// The network schema fits the nine columns of every list of records, so a
/// conversion under it never fails.
pub proof fn lemma_network_schema_fits(records: Seq<NetworkView>)
    ensures
        columns_fit(network_fields(), network_columns(records)),
{
    let fields = network_fields();
    let columns = network_columns(records);
    assert forall|i: int| 0 <= i < columns.len() implies (#[trigger] fields[i]).nullable by {}
}

/// The fields of the network schema are named, in this order, `id`, `name`,
/// `created`, `scope`, `driver`, `enable_ipv6`, `internal`, `attachable`,
/// `ingress`; a complete stream under that schema starts with them, and the
/// columns of each of its batches of records follow the same order:
/// column `i` holds the field of the records that field `i` names.
pub proof fn lemma_column_order(records: Seq<NetworkView>)
    ensures
        field_names(network_fields()) == seq![
            "id"@,
            "name"@,
            "created"@,
            "scope"@,
            "driver"@,
            "enable_ipv6"@,
            "internal"@,
            "attachable"@,
            "ingress"@,
        ],
        complete_stream(network_fields(), seq![network_columns(records)])[0] == Message::Schema(
            network_fields(),
        ),
        complete_stream(network_fields(), seq![network_columns(records)])[1] == Message::Batch(
            network_columns(records),
        ),
        forall|row: int|
            0 <= row < records.len() ==> {
                &&& text_cell(network_columns(records)[0], row) == (#[trigger] records[row]).id
                &&& text_cell(network_columns(records)[1], row) == records[row].name
                &&& text_cell(network_columns(records)[2], row) == records[row].created
                &&& text_cell(network_columns(records)[3], row) == records[row].scope
                &&& text_cell(network_columns(records)[4], row) == records[row].driver
                &&& flag_cell(network_columns(records)[5], row) == records[row].enable_ipv6
                &&& flag_cell(network_columns(records)[6], row) == records[row].internal
                &&& flag_cell(network_columns(records)[7], row) == records[row].attachable
                &&& flag_cell(network_columns(records)[8], row) == records[row].ingress
            },
{
    assert(field_names(network_fields()) =~= seq![
        "id"@,
        "name"@,
        "created"@,
        "scope"@,
        "driver"@,
        "enable_ipv6"@,
        "internal"@,
        "attachable"@,
        "ingress"@,
    ]);
}

} // verus!
