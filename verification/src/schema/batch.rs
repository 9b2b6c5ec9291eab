//! Rows as the data engine hands them back: batches of typed columns.

use vstd::prelude::*;
use crate::error::{ErrorKind, ErrorView, NouninatorError};
use crate::schema::column::{DataType, FieldDescriptor, FieldView};

verus! {

/// One cell of a column. Integers of every width are held in 64 bits;
/// floating-point numbers as the bits of their IEEE 754 binary64 encoding;
/// a cell of a type that the library does not read is `Opaque`.
#[derive(Debug, PartialEq, Eq)]
pub enum Cell {
    Null,
    Int(i64),
    UInt(u64),
    Float(u64),
    Text(String),
    Bool(bool),
    Opaque,
}

/// A cell in contracts.
pub enum CellView {
    Null,
    Int(int),
    UInt(int),
    Float(u64),
    Text(Seq<char>),
    Bool(bool),
    Opaque,
}

impl View for Cell {
    type V = CellView;

    open spec fn view(&self) -> CellView {
        match self {
            Cell::Null => CellView::Null,
            Cell::Int(v) => CellView::Int(*v as int),
            Cell::UInt(v) => CellView::UInt(*v as int),
            Cell::Float(bits) => CellView::Float(*bits),
            Cell::Text(s) => CellView::Text(s@),
            Cell::Bool(b) => CellView::Bool(*b),
            Cell::Opaque => CellView::Opaque,
        }
    }
}

/// Whether a cell may stand in a column of the given type: a null anywhere,
/// otherwise the variant that holds the type's values, within the type's
/// range.
pub open spec fn cell_fits(data_type: DataType, cell: CellView) -> bool {
    match cell {
        CellView::Null => true,
        CellView::Int(v) => match data_type {
            DataType::Int8 => -0x80 <= v <= 0x7f,
            DataType::Int16 => -0x8000 <= v <= 0x7fff,
            DataType::Int32 | DataType::Date32 => -0x8000_0000 <= v <= 0x7fff_ffff,
            DataType::Int64 | DataType::Date64 | DataType::Timestamp(_) => true,
            _ => false,
        },
        CellView::UInt(v) => match data_type {
            DataType::UInt8 => v <= 0xff,
            DataType::UInt16 => v <= 0xffff,
            DataType::UInt32 => v <= 0xffff_ffff,
            DataType::UInt64 => true,
            _ => false,
        },
        CellView::Float(_) => data_type is Float32 || data_type is Float64,
        CellView::Text(_) => data_type.is_text(),
        CellView::Bool(_) => data_type is Boolean,
        CellView::Opaque => data_type is Float16 || data_type is List || data_type is LargeList
            || data_type is Struct || data_type is Other,
    }
}

/// Whether a cell may stand in the column that `field` describes: it fits the
/// type, and is null only where the column is nullable.
pub open spec fn cell_allowed(field: FieldView, cell: CellView) -> bool {
    cell_fits(field.data_type, cell) && (cell is Null ==> field.nullable)
}

/// A batch in contracts: the fields, and for each field the cells of its
/// column, one per row.
pub struct BatchView {
    pub fields: Seq<FieldView>,
    pub columns: Seq<Seq<CellView>>,
}

impl BatchView {
    /// The number of rows: the length of the first column, 0 without columns.
    pub open spec fn num_rows(self) -> nat {
        if self.columns.len() == 0 {
            0
        } else {
            self.columns[0].len()
        }
    }

    /// One column per field, all columns of one length, every cell allowed in
    /// its column.
    pub open spec fn well_formed(self) -> bool {
        &&& self.columns.len() == self.fields.len()
        &&& forall|c: int|
            0 <= c < self.columns.len() ==> (#[trigger] self.columns[c]).len() == self.num_rows()
        &&& forall|c: int, r: int|
            0 <= c < self.columns.len() && 0 <= r < self.columns[c].len() ==> cell_allowed(
                self.fields[c],
                #[trigger] self.columns[c][r],
            )
    }
}

/// The batch made of the given fields and columns.
pub open spec fn batch_view(schema: Seq<FieldDescriptor>, columns: Seq<Vec<Cell>>) -> BatchView {
    BatchView {
        fields: Seq::new(schema.len(), |i: int| schema[i]@),
        columns: Seq::new(
            columns.len(),
            |c: int| Seq::new(columns[c]@.len(), |r: int| columns[c]@[r]@),
        ),
    }
}

/// A batch of rows, column by column.
#[derive(Debug)]
pub struct RecordBatch {
    schema: Vec<FieldDescriptor>,
    columns: Vec<Vec<Cell>>,
}

impl View for RecordBatch {
    type V = BatchView;

    closed spec fn view(&self) -> BatchView {
        batch_view(self.schema@, self.columns@)
    }
}

fn cell_is_allowed(field: &FieldDescriptor, cell: &Cell) -> (b: bool)
    ensures
        b == cell_allowed(field@, cell@),
{
    match cell {
        Cell::Null => field.nullable,
        Cell::Int(v) => match field.data_type {
            DataType::Int8 => -0x80 <= *v && *v <= 0x7f,
            DataType::Int16 => -0x8000 <= *v && *v <= 0x7fff,
            DataType::Int32 | DataType::Date32 => -0x8000_0000 <= *v && *v <= 0x7fff_ffff,
            DataType::Int64 | DataType::Date64 | DataType::Timestamp(_) => true,
            _ => false,
        },
        Cell::UInt(v) => match field.data_type {
            DataType::UInt8 => *v <= 0xff,
            DataType::UInt16 => *v <= 0xffff,
            DataType::UInt32 => *v <= 0xffff_ffff,
            DataType::UInt64 => true,
            _ => false,
        },
        Cell::Float(_) => match field.data_type {
            DataType::Float32 | DataType::Float64 => true,
            _ => false,
        },
        Cell::Text(_) => match field.data_type {
            DataType::Utf8 | DataType::LargeUtf8 => true,
            _ => false,
        },
        Cell::Bool(_) => match field.data_type {
            DataType::Boolean => true,
            _ => false,
        },
        Cell::Opaque => match field.data_type {
            DataType::Float16
            | DataType::List
            | DataType::LargeList
            | DataType::Struct
            | DataType::Other => true,
            _ => false,
        },
    }
}

fn column_is_allowed(field: &FieldDescriptor, column: &Vec<Cell>) -> (b: bool)
    ensures
        b == forall|r: int| 0 <= r < column@.len() ==> cell_allowed(field@, #[trigger] column@[r]@),
{
    let mut r: usize = 0;
    while r < column.len()
        invariant
            r <= column.len(),
            forall|k: int| 0 <= k < r ==> cell_allowed(field@, #[trigger] column@[k]@),
        decreases column.len() - r,
    {
        if !cell_is_allowed(field, &column[r]) {
            return false;
        }
        r = r + 1;
    }
    true
}

impl RecordBatch {
    #[verifier::type_invariant]
    spec fn shape_holds(self) -> bool {
        batch_view(self.schema@, self.columns@).well_formed()
    }

    /// Makes a batch of the given fields and columns. Fails where the columns
    /// do not go with the fields: another number of columns than fields,
    /// columns of different lengths, a cell that its column's type does not
    /// allow, or a null in a column that is not nullable.
    pub fn try_new(schema: Vec<FieldDescriptor>, columns: Vec<Vec<Cell>>) -> (r: Result<
        RecordBatch,
        NouninatorError,
    >)
        ensures
            r is Ok <==> batch_view(schema@, columns@).well_formed(),
            r matches Ok(batch) ==> batch@ == batch_view(schema@, columns@),
            r matches Err(e) ==> e@ == (ErrorView {
                kind: ErrorKind::DataFusion,
                message: "columns do not match the schema"@,
            }),
    {
        let ghost view = batch_view(schema@, columns@);
        if columns.len() != schema.len() {
            return Err(NouninatorError::DataFusion("columns do not match the schema".to_owned()));
        }
        let rows: usize = if columns.len() == 0 {
            0
        } else {
            columns[0].len()
        };
        let mut c: usize = 0;
        while c < columns.len()
            invariant
                c <= columns.len(),
                columns.len() == schema.len(),
                view == batch_view(schema@, columns@),
                rows == view.num_rows(),
                forall|k: int| 0 <= k < c ==> (#[trigger] view.columns[k]).len() == rows,
                forall|k: int, r: int|
                    0 <= k < c && 0 <= r < view.columns[k].len() ==> cell_allowed(
                        view.fields[k],
                        #[trigger] view.columns[k][r],
                    ),
            decreases columns.len() - c,
        {
            if columns[c].len() != rows {
                assert(view.columns[c as int].len() != view.num_rows());
                return Err(
                    NouninatorError::DataFusion("columns do not match the schema".to_owned()),
                );
            }
            if !column_is_allowed(&schema[c], &columns[c]) {
                let ghost r = choose|r: int|
                    0 <= r < columns@[c as int]@.len() && !cell_allowed(
                        schema@[c as int]@,
                        #[trigger] columns@[c as int]@[r]@,
                    );
                assert(!cell_allowed(view.fields[c as int], view.columns[c as int][r]));
                return Err(
                    NouninatorError::DataFusion("columns do not match the schema".to_owned()),
                );
            }
            assert forall|r: int| 0 <= r < view.columns[c as int].len() implies cell_allowed(
                view.fields[c as int],
                #[trigger] view.columns[c as int][r],
            ) by {
                assert(cell_allowed(schema@[c as int]@, columns@[c as int]@[r]@));
            }
            c = c + 1;
        }
        Ok(RecordBatch { schema, columns })
    }

    /// The number of columns.
    pub fn num_columns(&self) -> (n: usize)
        ensures
            n == self@.fields.len(),
            n == self@.columns.len(),
    {
        proof {
            use_type_invariant(self);
        }
        self.schema.len()
    }

    /// The number of rows. Every batch is well formed.
    pub fn num_rows(&self) -> (n: usize)
        ensures
            n == self@.num_rows(),
            self@.well_formed(),
    {
        proof {
            use_type_invariant(self);
        }
        if self.columns.len() == 0 {
            0
        } else {
            self.columns[0].len()
        }
    }

    /// The field that describes column `index`.
    pub fn field(&self, index: usize) -> (f: &FieldDescriptor)
        requires
            index < self@.fields.len(),
        ensures
            f@ == self@.fields[index as int],
    {
        &self.schema[index]
    }

    /// The cell of column `column` in row `row`.
    pub fn cell(&self, column: usize, row: usize) -> (cell: &Cell)
        requires
            column < self@.columns.len(),
            row < self@.num_rows(),
        ensures
            cell@ == self@.columns[column as int][row as int],
    {
        proof {
            use_type_invariant(self);
            assert(self@.columns[column as int].len() == self@.num_rows());
        }
        &self.columns[column][row]
    }
}

} // verus!
