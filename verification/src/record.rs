//! Network descriptor records and their column-wise reading.

use vstd::prelude::*;
use vstd::utf8::encode_utf8;

verus! {

/// One virtual network of the container engine, as the daemon describes it.
///
/// Every field may be absent. An absent field is a value of its own: it is
/// neither the empty string nor `false`.
#[derive(Clone, Debug, Default, PartialEq, Eq)]
pub struct Network {
    pub id: Option<String>,
    pub name: Option<String>,
    /// The creation time as the daemon wrote it; it is never parsed.
    pub created: Option<String>,
    pub scope: Option<String>,
    pub driver: Option<String>,
    pub enable_ipv6: Option<bool>,
    pub internal: Option<bool>,
    pub attachable: Option<bool>,
    pub ingress: Option<bool>,
}

/// The mathematical value of a [`Network`].
pub struct NetworkView {
    pub id: Option<Seq<char>>,
    pub name: Option<Seq<char>>,
    pub created: Option<Seq<char>>,
    pub scope: Option<Seq<char>>,
    pub driver: Option<Seq<char>>,
    pub enable_ipv6: Option<bool>,
    pub internal: Option<bool>,
    pub attachable: Option<bool>,
    pub ingress: Option<bool>,
}

/// The text of an optional string, absent where the string is absent.
pub open spec fn text_view(s: Option<String>) -> Option<Seq<char>> {
    match s {
        Some(t) => Some(t@),
        None => None,
    }
}

/// The texts of a list of optional strings, place by place.
pub open spec fn texts_view(cells: Seq<Option<String>>) -> Seq<Option<Seq<char>>> {
    Seq::new(cells.len(), |i: int| text_view(cells[i]))
}

impl View for Network {
    type V = NetworkView;

    open spec fn view(&self) -> NetworkView {
        NetworkView {
            id: text_view(self.id),
            name: text_view(self.name),
            created: text_view(self.created),
            scope: text_view(self.scope),
            driver: text_view(self.driver),
            enable_ipv6: self.enable_ipv6,
            internal: self.internal,
            attachable: self.attachable,
            ingress: self.ingress,
        }
    }
}

/// The records behind a vector of networks, in the vector's order.
pub open spec fn records_of(networks: Seq<Network>) -> Seq<NetworkView> {
    Seq::new(networks.len(), |i: int| networks[i]@)
}

/// The cells of one column: one per row, `None` for a null.
pub enum ColumnView {
    Utf8(Seq<Option<Seq<char>>>),
    Boolean(Seq<Option<bool>>),
}

impl ColumnView {
    /// The number of rows.
    pub open spec fn len(self) -> nat {
        match self {
            ColumnView::Utf8(cells) => cells.len(),
            ColumnView::Boolean(cells) => cells.len(),
        }
    }

    /// Whether some cell is null.
    pub open spec fn has_null(self) -> bool {
        match self {
            ColumnView::Utf8(cells) => exists|i: int| 0 <= i < cells.len() && cells[i] is None,
            ColumnView::Boolean(cells) => exists|i: int| 0 <= i < cells.len() && cells[i] is None,
        }
    }
}

/// The string field of a record that column `column` holds, for `column`
/// below five: `id`, `name`, `created`, `scope`, `driver`.
pub open spec fn text_field(record: NetworkView, column: int) -> Option<Seq<char>> {
    if column == 0 {
        record.id
    } else if column == 1 {
        record.name
    } else if column == 2 {
        record.created
    } else if column == 3 {
        record.scope
    } else {
        record.driver
    }
}

/// The boolean field of a record that column `column` holds, for `column`
/// from five to eight: `enable_ipv6`, `internal`, `attachable`, `ingress`.
pub open spec fn flag_field(record: NetworkView, column: int) -> Option<bool> {
    if column == 5 {
        record.enable_ipv6
    } else if column == 6 {
        record.internal
    } else if column == 7 {
        record.attachable
    } else {
        record.ingress
    }
}

/// Column `column` of the records as string cells, row by row.
pub open spec fn text_cells(records: Seq<NetworkView>, column: int) -> Seq<Option<Seq<char>>> {
    Seq::new(records.len(), |row: int| text_field(records[row], column))
}

/// Column `column` of the records as boolean cells, row by row.
pub open spec fn flag_cells(records: Seq<NetworkView>, column: int) -> Seq<Option<bool>> {
    Seq::new(records.len(), |row: int| flag_field(records[row], column))
}

/// The nine columns that hold the records: five of strings, then four of
/// booleans, each with one cell per record in the records' order.
pub open spec fn network_columns(records: Seq<NetworkView>) -> Seq<ColumnView> {
    Seq::new(
        9,
        |column: int|
            if column < 5 {
                ColumnView::Utf8(text_cells(records, column))
            } else {
                ColumnView::Boolean(flag_cells(records, column))
            },
    )
}

/// The number of bytes that one string cell takes in UTF-8, a null taking
/// none.
pub open spec fn cell_size(cell: Option<Seq<char>>) -> nat {
    match cell {
        Some(text) => encode_utf8(text).len(),
        None => 0,
    }
}

/// The number of bytes that the strings of a column take in UTF-8.
pub open spec fn utf8_size(cells: Seq<Option<Seq<char>>>) -> nat
    decreases cells.len(),
{
    if cells.len() == 0 {
        0
    } else {
        utf8_size(cells.drop_last()) + cell_size(cells.last())
    }
}

/// The bytes of the first `n` cells and of the cell behind them are the
/// bytes of the first `n + 1` cells, and no prefix takes more bytes than
/// the whole column.
pub proof fn lemma_utf8_size_prefix(cells: Seq<Option<Seq<char>>>, n: int)
    requires
        0 <= n <= cells.len(),
    ensures
        utf8_size(cells.take(n)) <= utf8_size(cells),
        n < cells.len() ==> utf8_size(cells.take(n + 1)) == utf8_size(cells.take(n)) + cell_size(
            cells[n],
        ),
    decreases cells.len() - n,
{
    if n == cells.len() {
        assert(cells.take(n) =~= cells);
    } else {
        assert(cells.take(n + 1).drop_last() =~= cells.take(n));
        assert(cells.take(n + 1).last() == cells[n]);
        lemma_utf8_size_prefix(cells, n + 1);
    }
}

/// The largest number of bytes that the strings of one column may take:
/// a string column addresses its bytes by 32-bit signed offsets.
pub const MAX_COLUMN_BYTES: usize = 2147483647;

/// Whether each of the five string columns of the records stays within
/// [`MAX_COLUMN_BYTES`].
pub open spec fn columns_within_limit(records: Seq<NetworkView>) -> bool {
    forall|column: int|
        0 <= column < 5 ==> utf8_size(#[trigger] text_cells(records, column)) <= MAX_COLUMN_BYTES
}

/// The string field of a network that column `column` holds.
fn text_of(network: &Network, column: usize) -> (cell: &Option<String>)
    requires
        column < 5,
    ensures
        text_view(*cell) == text_field(network@, column as int),
{
    if column == 0 {
        &network.id
    } else if column == 1 {
        &network.name
    } else if column == 2 {
        &network.created
    } else if column == 3 {
        &network.scope
    } else {
        &network.driver
    }
}

/// The number of bytes that an optional string takes in UTF-8.
fn text_len(cell: &Option<String>) -> (size: usize)
    ensures
        size == cell_size(text_view(*cell)),
{
    match cell {
        Some(text) => text.as_str().as_bytes().len(),
        None => 0,
    }
}

/// Whether string column `column` of the networks stays within
/// [`MAX_COLUMN_BYTES`].
fn column_within_limit(networks: &Vec<Network>, column: usize) -> (fits: bool)
    requires
        column < 5,
    ensures
        fits == (utf8_size(text_cells(records_of(networks@), column as int)) <= MAX_COLUMN_BYTES),
{
    let ghost cells = text_cells(records_of(networks@), column as int);
    let count: usize = networks.len();
    let mut total: usize = 0;
    let mut row: usize = 0;
    while row < count
        invariant
            row <= count,
            count == networks@.len(),
            column < 5,
            cells == text_cells(records_of(networks@), column as int),
            total == utf8_size(cells.take(row as int)),
            total <= MAX_COLUMN_BYTES,
        decreases count - row,
    {
        let size: usize = text_len(text_of(&networks[row], column));
        proof {
            lemma_utf8_size_prefix(cells, row as int);
            lemma_utf8_size_prefix(cells, row as int + 1);
        }
        if size > MAX_COLUMN_BYTES - total {
            return false;
        }
        total = total + size;
        row = row + 1;
    }
    proof {
        assert(cells.take(count as int) =~= cells);
    }
    true
}

/// Whether the networks can be laid out in columns: whether each of their
/// five string columns stays within [`MAX_COLUMN_BYTES`].
pub fn within_column_limit(networks: &Vec<Network>) -> (fits: bool)
    ensures
        fits == columns_within_limit(records_of(networks@)),
{
    let mut column: usize = 0;
    while column < 5
        invariant
            column <= 5,
            forall|c: int|
                0 <= c < column ==> utf8_size(#[trigger] text_cells(records_of(networks@), c))
                    <= MAX_COLUMN_BYTES,
        decreases 5 - column,
    {
        if !column_within_limit(networks, column) {
            return false;
        }
        column = column + 1;
    }
    true
}

} // verus!
