//! Column builders: cells are appended one by one, then frozen into an
//! immutable array.

use arrow::array::ArrayRef;
use arrow::array::BooleanBuilder;
use arrow::array::StringBuilder;
use crate::record::cell_size;
use crate::record::text_view;
use crate::record::utf8_size;
use crate::record::ColumnView;
use crate::record::MAX_COLUMN_BYTES;
use std::sync::Arc;
use vstd::prelude::*;

verus! {

/// Arrow's builder of a boolean column. Its cells are read through
/// [`flag_builder_cells`].
#[verifier::external_type_specification]
#[verifier::external_body]
pub struct ExBooleanBuilder(BooleanBuilder);

/// Arrow's builder of a string column with 32-bit offsets. Its cells are
/// read through [`text_builder_cells`].
#[verifier::external_body]
pub struct TextBuilder {
    inner: StringBuilder,
}

/// A finished Arrow array behind a shared handle. Its cells are read
/// through [`array_cells`].
#[verifier::external_body]
pub struct ColumnArray {
    pub(crate) inner: ArrayRef,
}

/// The cells appended to a string builder since it was made or last
/// finished.
pub uninterp spec fn text_builder_cells(builder: TextBuilder) -> Seq<Option<Seq<char>>>;

/// The cells appended to a boolean builder since it was made or last
/// finished.
pub uninterp spec fn flag_builder_cells(builder: BooleanBuilder) -> Seq<Option<bool>>;

/// The cells of a finished array.
pub uninterp spec fn array_cells(array: ColumnArray) -> ColumnView;

/// Calls `StringBuilder::new`: a builder without cells.
#[verifier::external_body]
pub(crate) fn text_builder_new() -> (builder: TextBuilder)
    ensures
        text_builder_cells(builder) == Seq::<Option<Seq<char>>>::empty(),
{
    TextBuilder { inner: StringBuilder::new() }
}

/// Calls `StringBuilder::append_option`: the cell is added behind the
/// others, a null for `None`. Arrow panics once the strings of the builder
/// take more bytes than a 32-bit signed offset can address, so the caller
/// shows that they do not.
#[verifier::external_body]
pub(crate) fn text_builder_append(builder: &mut TextBuilder, cell: &Option<String>)
    requires
        utf8_size(text_builder_cells(*old(builder))) + cell_size(text_view(*cell))
            <= MAX_COLUMN_BYTES,
    ensures
        text_builder_cells(*final(builder)) == text_builder_cells(*old(builder)).push(
            text_view(*cell),
        ),
{
    builder.inner.append_option(cell.as_deref())
}

/// Calls `StringBuilder::finish`: the array holds the builder's cells in
/// their order, and the builder is left without cells.
#[verifier::external_body]
pub(crate) fn text_builder_finish(builder: &mut TextBuilder) -> (array: ColumnArray)
    ensures
        array_cells(array) == ColumnView::Utf8(text_builder_cells(*old(builder))),
        text_builder_cells(*final(builder)) == Seq::<Option<Seq<char>>>::empty(),
{
    ColumnArray { inner: Arc::new(builder.inner.finish()) }
}

/// Calls `BooleanBuilder::new`: a builder without cells.
#[verifier::external_body]
pub(crate) fn flag_builder_new() -> (builder: BooleanBuilder)
    ensures
        flag_builder_cells(builder) == Seq::<Option<bool>>::empty(),
{
    BooleanBuilder::new()
}

/// Calls `BooleanBuilder::append_option`: the cell is added behind the
/// others, a null for `None`.
#[verifier::external_body]
pub(crate) fn flag_builder_append(builder: &mut BooleanBuilder, cell: Option<bool>)
    ensures
        flag_builder_cells(*final(builder)) == flag_builder_cells(*old(builder)).push(cell),
{
    builder.append_option(cell)
}

/// Calls `BooleanBuilder::finish`: the array holds the builder's cells in
/// their order, and the builder is left without cells.
#[verifier::external_body]
pub(crate) fn flag_builder_finish(builder: &mut BooleanBuilder) -> (array: ColumnArray)
    ensures
        array_cells(array) == ColumnView::Boolean(flag_builder_cells(*old(builder))),
        flag_builder_cells(*final(builder)) == Seq::<Option<bool>>::empty(),
{
    ColumnArray { inner: Arc::new(builder.finish()) }
}

} // verus!
