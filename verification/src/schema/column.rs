//! Column metadata as the data engine reports it.

use vstd::prelude::*;

verus! {

/// The unit in which a timestamp column counts from the epoch.
#[derive(Clone, Copy, Debug, PartialEq, Eq, Structural)]
pub enum TimeUnit {
    Second,
    Millisecond,
    Microsecond,
    Nanosecond,
}

/// The semantic type of a column.
#[derive(Clone, Copy, Debug, PartialEq, Eq, Structural)]
pub enum DataType {
    Int8,
    Int16,
    Int32,
    Int64,
    UInt8,
    UInt16,
    UInt32,
    UInt64,
    Float16,
    Float32,
    Float64,
    Utf8,
    LargeUtf8,
    Boolean,
    /// Days since 1970-01-01.
    Date32,
    /// Milliseconds since 1970-01-01.
    Date64,
    /// An instant counted from the epoch in the given unit.
    Timestamp(TimeUnit),
    List,
    LargeList,
    Struct,
    /// Any type that the library does not know.
    Other,
}

impl DataType {
    /// Signed or unsigned integers of any width.
    pub open spec fn is_integer(self) -> bool {
        self.is_signed_integer() || self.is_unsigned_integer()
    }

    /// Signed integers of any width.
    pub open spec fn is_signed_integer(self) -> bool {
        self is Int8 || self is Int16 || self is Int32 || self is Int64
    }

    /// Unsigned integers of any width.
    pub open spec fn is_unsigned_integer(self) -> bool {
        self is UInt8 || self is UInt16 || self is UInt32 || self is UInt64
    }

    /// Floating-point numbers of any width.
    pub open spec fn is_float(self) -> bool {
        self is Float16 || self is Float32 || self is Float64
    }

    /// Text of either offset width.
    pub open spec fn is_text(self) -> bool {
        self is Utf8 || self is LargeUtf8
    }

    /// Calendar dates of either encoding.
    pub open spec fn is_date(self) -> bool {
        self is Date32 || self is Date64
    }
}

/// One column of a table: its name, semantic type and nullability.
#[derive(Debug)]
pub struct FieldDescriptor {
    pub name: String,
    pub data_type: DataType,
    pub nullable: bool,
}

/// A field descriptor in contracts.
pub struct FieldView {
    pub name: Seq<char>,
    pub data_type: DataType,
    pub nullable: bool,
}

impl View for FieldDescriptor {
    type V = FieldView;

    open spec fn view(&self) -> FieldView {
        FieldView { name: self.name@, data_type: self.data_type, nullable: self.nullable }
    }
}

impl FieldDescriptor {
    /// A descriptor for the column `name`.
    pub fn new(name: &str, data_type: DataType, nullable: bool) -> (f: FieldDescriptor)
        ensures
            f@ == (FieldView { name: name@, data_type, nullable }),
    {
        FieldDescriptor { name: name.to_owned(), data_type, nullable }
    }
}

impl Clone for FieldDescriptor {
    /// A copy of this descriptor.
    fn clone(&self) -> (f: FieldDescriptor)
        ensures
            f@ == self@,
    {
        FieldDescriptor {
            name: self.name.clone(),
            data_type: self.data_type,
            nullable: self.nullable,
        }
    }
}

/// The views of a list of field descriptors.
pub open spec fn field_views(fields: Seq<FieldDescriptor>) -> Seq<FieldView> {
    Seq::new(fields.len(), |i: int| fields[i]@)
}

} // verus!
