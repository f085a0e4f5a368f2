//! The library's own model of a table schema.
//!
//! A table's declared columns are carried as plain values (name, data
//! kind, nullability).  The read schema appends a trailing placeholder
//! text column when the source records end with a field delimiter, and
//! the write-time projection drops that placeholder again, so the written
//! output holds exactly the declared columns.

use vstd::prelude::*;
use vstd::string::*;

verus! {

/// The data kind a column is read and written as.
#[derive(Debug, Clone, Copy, PartialEq, Eq, Structural)]
pub enum DataKind {
    Boolean,
    Int32,
    Int64,
    Float64,
    Utf8,
    Date32,
    Decimal { precision: u8, scale: i8 },
}

/// One column of a schema.
#[derive(Debug, Clone, PartialEq)]
pub struct Column {
    pub name: String,
    pub kind: DataKind,
    pub nullable: bool,
}

/// The mathematical value of a [`Column`].
pub struct ColumnView {
    pub name: Seq<char>,
    pub kind: DataKind,
    pub nullable: bool,
}

impl View for Column {
    type V = ColumnView;

    open spec fn view(&self) -> ColumnView {
        ColumnView { name: self.name@, kind: self.kind, nullable: self.nullable }
    }
}

/// An ordered list of columns.
#[derive(Debug, Clone, PartialEq)]
pub struct TableSchema {
    pub columns: Vec<Column>,
}

impl View for TableSchema {
    type V = Seq<ColumnView>;

    open spec fn view(&self) -> Seq<ColumnView> {
        self.columns@.map_values(|c: Column| c@)
    }
}

impl Column {
    /// A copy with the same name, kind and nullability.
    pub fn duplicate(&self) -> (r: Column)
        ensures
            r@ == self@,
    {
        Column { name: self.name.clone(), kind: self.kind, nullable: self.nullable }
    }
}

impl TableSchema {
    pub fn push(&mut self, c: Column)
        ensures
            final(self)@ == old(self)@.push(c@),
    {
        let ghost before = self@;
        let ghost cv = c@;
        self.columns.push(c);
        proof {
            assert(self@ =~= before.push(cv));
        }
    }

    pub fn len(&self) -> (r: usize)
        ensures
            r == self@.len(),
    {
        self.columns.len()
    }

    /// A copy whose columns are, one by one, the same as this schema's.
    pub fn duplicate(&self) -> (r: TableSchema)
        ensures
            r@ == self@,
    {
        let mut cols: Vec<Column> = Vec::new();
        let n = self.columns.len();
        for i in 0..n
            invariant
                n == self.columns.len(),
                cols@.len() == i,
                forall|j: int| 0 <= j < i ==> cols@[j]@ == self.columns@[j]@,
        {
            cols.push(self.columns[i].duplicate());
        }
        let r = TableSchema { columns: cols };
        proof {
            assert(r@ =~= self@);
        }
        r
    }
}

/// The trailing placeholder column: nullable text, never exposed
/// downstream.
pub open spec fn placeholder_view() -> ColumnView {
    ColumnView { name: "__placeholder"@, kind: DataKind::Utf8, nullable: true }
}

pub fn placeholder_column() -> (r: Column)
    ensures
        r@ == placeholder_view(),
{
    Column { name: String::from_str("__placeholder"), kind: DataKind::Utf8, nullable: true }
}

/// The read schema: the declared columns, plus the placeholder column
/// when the source records are delimiter-terminated.
pub open spec fn read_schema_view(base: Seq<ColumnView>, delimiter_terminated: bool) -> Seq<
    ColumnView,
> {
    if delimiter_terminated {
        base.push(placeholder_view())
    } else {
        base
    }
}

pub fn build_read_schema(base: &TableSchema, delimiter_terminated: bool) -> (r: TableSchema)
    ensures
        r@ == read_schema_view(base@, delimiter_terminated),
{
    let mut r = base.duplicate();
    if delimiter_terminated {
        r.push(placeholder_column());
    }
    r
}

/// What the writer persists: every read-schema column except the trailing
/// placeholder when one was appended.
pub open spec fn written_schema_view(read: Seq<ColumnView>, delimiter_terminated: bool) -> Seq<
    ColumnView,
> {
    if delimiter_terminated {
        read.drop_last()
    } else {
        read
    }
}

/// The write-time column projection: the indices of the columns to keep,
/// in declared order.
pub open spec fn identity_projection(n: nat) -> Seq<usize> {
    Seq::new(n, |i: int| i as usize)
}

pub fn write_projection(read: &TableSchema, delimiter_terminated: bool) -> (r: Vec<usize>)
    requires
        delimiter_terminated ==> read@.len() >= 1,
    ensures
        r@ == identity_projection(written_schema_view(read@, delimiter_terminated).len()),
{
    let n = read.len();
    let keep = if delimiter_terminated {
        n - 1
    } else {
        n
    };
    let mut r: Vec<usize> = Vec::new();
    for i in 0..keep
        invariant
            r@.len() == i,
            forall|j: int| 0 <= j < i ==> r@[j] == j,
    {
        r.push(i);
    }
    proof {
        assert(r@ =~= identity_projection(written_schema_view(read@, delimiter_terminated).len()));
    }
    r
}

/// Appending the placeholder for reading and projecting it back out for
/// writing returns exactly the declared columns, in declared order — in
/// particular the written column count equals the declared column count.
pub proof fn lemma_placeholder_round_trip(base: Seq<ColumnView>, delimiter_terminated: bool)
    ensures
        written_schema_view(read_schema_view(base, delimiter_terminated), delimiter_terminated)
            == base,
        read_schema_view(base, delimiter_terminated).len() == base.len() + (
        if delimiter_terminated {
            1int
        } else {
            0int
        }),
{
    if delimiter_terminated {
        assert(base.push(placeholder_view()).drop_last() =~= base);
    }
}

} // verus!
