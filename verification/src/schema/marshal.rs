//! The row marshaller: from one row of a batch to one row object of the API.

use vstd::prelude::*;
use crate::error::{ErrorKind, ErrorView, NouninatorError};
use crate::schema::batch::{BatchView, Cell, CellView, RecordBatch};
use crate::schema::calendar::{
    epoch_date_text, in_calendar, in_four_digit_years, rfc3339_from_timestamp, shifted_date,
    utc_instant_text,
};
use crate::schema::column::{field_views, DataType, FieldDescriptor, FieldView, TimeUnit};
use crate::schema::scalars::{date_accepted, instant_accepted};
use crate::schema::type_mapping::{is_identifier_field, is_identifier_name};
use crate::schema::value::{
    distinct_keys, lemma_upsert, lookup, upsert, Entries, RowObject, Value, ValueView,
};
use crate::text::{concat2, concat3, decimal_string, decimal_text, texts};

verus! {

/// The `strftime` format of a calendar date: year, month and day.
pub const DATE_FORMAT: &'static str = "%Y-%m-%d";

/// The number of milliseconds in a day.
pub const MILLIS_PER_DAY: i64 = 86_400_000;

/// The number of nanoseconds in a second.
pub const NANOS_PER_SECOND: i128 = 1_000_000_000;

/// An encoding failure with the given message.
pub open spec fn encoding_error(message: Seq<char>) -> ErrorView {
    ErrorView { kind: ErrorKind::Encoding, message }
}

/// An integer as the API shows it: its decimal text where the field is
/// identifier-like or the number is above the largest signed 64-bit integer,
/// the number itself otherwise.
pub open spec fn integer_value(name: Seq<char>, v: int) -> ValueView {
    if is_identifier_name(name) || v > i64::MAX {
        ValueView::String(decimal_text(v))
    } else {
        ValueView::Integer(v)
    }
}

/// Whether the bits are those of a finite binary64 number: the exponent is
/// not all ones, so the number is neither infinite nor not-a-number.
pub open spec fn is_finite_bits(bits: u64) -> bool {
    (bits >> 52) & 0x7ff != 0x7ff
}

/// A floating-point number as the API shows it; infinities and not-a-number
/// cannot be shown.
pub open spec fn float_value(bits: u64) -> Result<ValueView, ErrorView> {
    if is_finite_bits(bits) {
        Ok(ValueView::Float(bits))
    } else {
        Err(encoding_error("Invalid float value"@))
    }
}

/// The nanoseconds since the epoch of a timestamp that counts `v` in `unit`.
pub open spec fn nanoseconds(unit: TimeUnit, v: int) -> int {
    match unit {
        TimeUnit::Second => v * 1_000_000_000,
        TimeUnit::Millisecond => v * 1_000_000,
        TimeUnit::Microsecond => v * 1_000,
        TimeUnit::Nanosecond => v,
    }
}

/// A timestamp as the API shows it: the RFC 3339 text of the UTC instant
/// whose whole seconds and nanosecond remainder the nanoseconds since the
/// epoch split into; an instant outside the calendar cannot be shown.
pub open spec fn timestamp_value(unit: TimeUnit, v: int) -> Result<ValueView, ErrorView> {
    let ns = nanoseconds(unit, v);
    match utc_instant_text(ns / 1_000_000_000, ns % 1_000_000_000) {
        Some(text) => Ok(ValueView::String(text)),
        None => Err(encoding_error("Invalid timestamp: "@ + decimal_text(ns))),
    }
}

/// A date counted in days from 1970-01-01 as the API shows it: year, month
/// and day; a date outside the calendar cannot be shown.
pub open spec fn day_value(days: int) -> Result<ValueView, ErrorView> {
    let shown = if i32::MIN <= days <= i32::MAX {
        epoch_date_text(days * 86_400_000)
    } else {
        None
    };
    match shown {
        Some(text) => Ok(ValueView::String(text)),
        None => Err(encoding_error("Invalid date: "@ + decimal_text(days) + " days"@)),
    }
}

/// A date counted in milliseconds from 1970-01-01 as the API shows it: the
/// year, month and day that the whole days of the count lead to; a date
/// outside the calendar cannot be shown.
pub open spec fn millisecond_value(millis: int) -> Result<ValueView, ErrorView> {
    let shown = if i64::MIN < millis <= i64::MAX {
        epoch_date_text(millis)
    } else {
        None
    };
    match shown {
        Some(text) => Ok(ValueView::String(text)),
        None => Err(encoding_error("Invalid date: "@ + decimal_text(millis) + " ms"@)),
    }
}

/// The API value of one cell of the column called `name`. A null cell is
/// `Null` whatever the type. Integers follow `integer_value`, floating-point
/// numbers `float_value`, texts and booleans stay as they are, timestamps
/// follow `timestamp_value` and dates `day_value` or `millisecond_value`.
/// Under every other type, and where the cell does not hold what the type
/// calls for, the value is `Null`.
pub open spec fn cell_value(name: Seq<char>, data_type: DataType, cell: CellView) -> Result<
    ValueView,
    ErrorView,
> {
    match (data_type, cell) {
        (_, CellView::Null) => Ok(ValueView::Null),
        (DataType::Int8, CellView::Int(v))
        | (DataType::Int16, CellView::Int(v))
        | (DataType::Int32, CellView::Int(v))
        | (DataType::Int64, CellView::Int(v))
        | (DataType::UInt8, CellView::UInt(v))
        | (DataType::UInt16, CellView::UInt(v))
        | (DataType::UInt32, CellView::UInt(v))
        | (DataType::UInt64, CellView::UInt(v)) => Ok(integer_value(name, v)),
        (DataType::Float32, CellView::Float(bits)) | (DataType::Float64, CellView::Float(bits)) => {
            float_value(bits)
        },
        (DataType::Utf8, CellView::Text(s)) | (DataType::LargeUtf8, CellView::Text(s)) => Ok(
            ValueView::String(s),
        ),
        (DataType::Boolean, CellView::Bool(b)) => Ok(ValueView::Boolean(b)),
        (DataType::Timestamp(unit), CellView::Int(v)) => timestamp_value(unit, v),
        (DataType::Date32, CellView::Int(v)) => day_value(v),
        (DataType::Date64, CellView::Int(v)) => millisecond_value(v),
        _ => Ok(ValueView::Null),
    }
}

/// The types whose cells the marshaller reads: integers, floating-point
/// numbers of 32 and 64 bits, texts, booleans, dates and timestamps. A cell
/// of any other type is shown as `Null`.
pub open spec fn is_read(data_type: DataType) -> bool {
    data_type.is_integer() || data_type is Float32 || data_type is Float64 || data_type.is_text()
        || data_type is Boolean || data_type.is_date() || data_type is Timestamp
}

/// The names of those of the first `n` columns whose cells the marshaller
/// does not read, in column order.
pub open spec fn unread_names(fields: Seq<FieldView>, n: nat) -> Seq<Seq<char>>
    decreases n,
{
    if n == 0 {
        Seq::empty()
    } else if is_read(fields[n - 1].data_type) {
        unread_names(fields, (n - 1) as nat)
    } else {
        unread_names(fields, (n - 1) as nat).push(fields[n - 1].name)
    }
}

/// The row object of the first `n` columns of row `row`: the fields in
/// column order, each with the value of its cell, a later column of the same
/// name taking the place of an earlier one; or the failure of the first
/// column whose cell cannot be shown.
pub open spec fn marshal_columns(batch: BatchView, row: int, n: nat) -> Result<Entries, ErrorView>
    decreases n,
{
    if n == 0 {
        Ok(Seq::empty())
    } else {
        match marshal_columns(batch, row, (n - 1) as nat) {
            Err(e) => Err(e),
            Ok(entries) => {
                let field = batch.fields[n - 1];
                match cell_value(field.name, field.data_type, batch.columns[n - 1][row]) {
                    Err(e) => Err(e),
                    Ok(value) => Ok(upsert(entries, field.name, value)),
                }
            },
        }
    }
}

/// The row object of row `row` of a batch.
pub open spec fn marshal_row(batch: BatchView, row: int) -> Result<Entries, ErrorView> {
    marshal_columns(batch, row, batch.fields.len())
}

/// The result of a conversion in contracts.
pub open spec fn value_result(r: Result<Value, NouninatorError>) -> Result<ValueView, ErrorView> {
    match r {
        Ok(v) => Ok(v@),
        Err(e) => Err(e@),
    }
}

/// The result of marshalling a row in contracts.
pub open spec fn row_result(r: Result<RowObject, NouninatorError>) -> Result<Entries, ErrorView> {
    match r {
        Ok(row) => Ok(row@),
        Err(e) => Err(e@),
    }
}

/// Whether the bits are those of a finite binary64 number.
pub fn is_finite(bits: u64) -> (b: bool)
    ensures
        b == is_finite_bits(bits),
{
    (bits >> 52) & 0x7ff != 0x7ff
}

/// Converts a signed integer cell.
pub fn signed_to_value(name: &str, v: i64) -> (r: Value)
    ensures
        r@ == integer_value(name@, v as int),
{
    if is_identifier_field(name) {
        Value::String(decimal_string(v as i128))
    } else {
        Value::Integer(v)
    }
}

/// Converts an unsigned integer cell.
pub fn unsigned_to_value(name: &str, v: u64) -> (r: Value)
    ensures
        r@ == integer_value(name@, v as int),
{
    if is_identifier_field(name) || v > 0x7fff_ffff_ffff_ffff {
        Value::String(decimal_string(v as i128))
    } else {
        Value::Integer(v as i64)
    }
}

/// Converts a floating-point cell.
pub fn float_to_value(bits: u64) -> (r: Result<Value, NouninatorError>)
    ensures
        value_result(r) == float_value(bits),
{
    if is_finite(bits) {
        Ok(Value::Float(bits))
    } else {
        Err(NouninatorError::Encoding("Invalid float value".to_owned()))
    }
}

/// Converts a timestamp cell. Every instant within eight million million
/// seconds of the epoch can be shown, and what is shown of an instant of the
/// years 0 to 9999 is a text that the validator of the instant scalar
/// accepts.
pub fn timestamp_to_value(unit: TimeUnit, v: i64) -> (r: Result<Value, NouninatorError>)
    ensures
        value_result(r) == timestamp_value(unit, v as int),
        in_calendar(nanoseconds(unit, v as int) / 1_000_000_000) ==> r is Ok,
        in_four_digit_years(nanoseconds(unit, v as int) / 1_000_000_000) ==> (r matches Ok(
            value,
        ) && instant_accepted(value@)),
{
    let wide: i128 = v as i128;
    let ns: i128 = match unit {
        TimeUnit::Second => wide * 1_000_000_000,
        TimeUnit::Millisecond => wide * 1_000_000,
        TimeUnit::Microsecond => wide * 1_000,
        TimeUnit::Nanosecond => wide,
    };
    let quotient: i128 = ns / NANOS_PER_SECOND;
    let remainder: i128 = ns % NANOS_PER_SECOND;
    let (seconds, nanos): (i128, i128) = if remainder < 0 {
        (quotient - 1, remainder + NANOS_PER_SECOND)
    } else {
        (quotient, remainder)
    };
    assert(seconds == ns as int / 1_000_000_000);
    assert(nanos == ns as int % 1_000_000_000);
    match rfc3339_from_timestamp(seconds as i64, nanos as u32) {
        Some(text) => Ok(Value::String(text)),
        None => {
            let number = decimal_string(ns);
            Err(NouninatorError::Encoding(concat2("Invalid timestamp: ", number.as_str())))
        },
    }
}

/// Converts a date cell that counts days. Every date within 100000 days of
/// 1970-01-01 can be shown, and what is shown of a date is a text that the
/// validator of the date scalar accepts.
pub fn days_to_value(days: i64) -> (r: Result<Value, NouninatorError>)
    ensures
        value_result(r) == day_value(days as int),
        -100_000 <= days <= 100_000 ==> r is Ok,
        r matches Ok(value) ==> date_accepted(value@),
{
    let shown = if -0x8000_0000 <= days && days <= 0x7fff_ffff {
        shifted_date(1970, 1, 1, days * MILLIS_PER_DAY, DATE_FORMAT)
    } else {
        None
    };
    match shown {
        Some(text) => Ok(Value::String(text)),
        None => {
            let number = decimal_string(days as i128);
            Err(NouninatorError::Encoding(concat3("Invalid date: ", number.as_str(), " days")))
        },
    }
}

/// Converts a date cell that counts milliseconds. What is shown of a date
/// is a text that the validator of the date scalar accepts.
pub fn milliseconds_to_value(millis: i64) -> (r: Result<Value, NouninatorError>)
    ensures
        value_result(r) == millisecond_value(millis as int),
        r matches Ok(value) ==> date_accepted(value@),
{
    let shown = if millis > i64::MIN {
        shifted_date(1970, 1, 1, millis, DATE_FORMAT)
    } else {
        None
    };
    match shown {
        Some(text) => Ok(Value::String(text)),
        None => {
            let number = decimal_string(millis as i128);
            Err(NouninatorError::Encoding(concat3("Invalid date: ", number.as_str(), " ms")))
        },
    }
}

/// Converts one cell of the column called `name`.
pub fn cell_to_value(name: &str, data_type: DataType, cell: &Cell) -> (r: Result<
    Value,
    NouninatorError,
>)
    ensures
        value_result(r) == cell_value(name@, data_type, cell@),
{
    match cell {
        Cell::Null => Ok(Value::Null),
        Cell::Int(v) => match data_type {
            DataType::Int8 | DataType::Int16 | DataType::Int32 | DataType::Int64 => Ok(
                signed_to_value(name, *v),
            ),
            DataType::Timestamp(unit) => timestamp_to_value(unit, *v),
            DataType::Date32 => days_to_value(*v),
            DataType::Date64 => milliseconds_to_value(*v),
            _ => Ok(Value::Null),
        },
        Cell::UInt(v) => match data_type {
            DataType::UInt8 | DataType::UInt16 | DataType::UInt32 | DataType::UInt64 => Ok(
                unsigned_to_value(name, *v),
            ),
            _ => Ok(Value::Null),
        },
        Cell::Float(bits) => match data_type {
            DataType::Float32 | DataType::Float64 => float_to_value(*bits),
            _ => Ok(Value::Null),
        },
        Cell::Text(s) => match data_type {
            DataType::Utf8 | DataType::LargeUtf8 => Ok(Value::String(s.clone())),
            _ => Ok(Value::Null),
        },
        Cell::Bool(b) => match data_type {
            DataType::Boolean => Ok(Value::Boolean(*b)),
            _ => Ok(Value::Null),
        },
        Cell::Opaque => Ok(Value::Null),
    }
}

/// Whether the marshaller reads the cells of a type.
pub fn reads_type(data_type: DataType) -> (b: bool)
    ensures
        b == is_read(data_type),
{
    match data_type {
        DataType::Float16
        | DataType::List
        | DataType::LargeList
        | DataType::Struct
        | DataType::Other => false,
        _ => true,
    }
}

/// The names of the columns whose cells are shown as `Null` whatever they
/// hold, for the one who wants to warn of them.
pub fn unread_columns(fields: &Vec<FieldDescriptor>) -> (names: Vec<String>)
    ensures
        texts(names@) == unread_names(field_views(fields@), fields@.len()),
{
    let ghost columns = field_views(fields@);
    let mut names: Vec<String> = Vec::new();
    let mut i: usize = 0;
    proof {
        assert(texts(names@) =~= Seq::<Seq<char>>::empty());
    }
    while i < fields.len()
        invariant
            i <= fields.len(),
            columns == field_views(fields@),
            texts(names@) == unread_names(columns, i as nat),
        decreases fields.len() - i,
    {
        proof {
            assert(columns[i as int] == fields@[i as int]@);
        }
        if !reads_type(fields[i].data_type) {
            let ghost before = names@;
            names.push(fields[i].name.clone());
            proof {
                assert(texts(names@) =~= texts(before).push(fields@[i as int]@.name));
            }
        }
        i = i + 1;
    }
    names
}

/// A cell of a type that the marshaller does not read is shown as `Null`,
/// without a failure.
pub proof fn lemma_unread_cells_are_null(name: Seq<char>, data_type: DataType, cell: CellView)
    requires
        !is_read(data_type),
    ensures
        cell_value(name, data_type, cell) == Ok::<ValueView, ErrorView>(ValueView::Null),
{
}

/// Converts row `row_idx` of a batch into a row object, field by field in
/// column order. The first cell that cannot be shown fails the whole row.
pub fn record_batch_to_graphql_value(batch: &RecordBatch, row_idx: usize) -> (r: Result<
    RowObject,
    NouninatorError,
>)
    requires
        row_idx < batch@.num_rows(),
    ensures
        row_result(r) == marshal_row(batch@, row_idx as int),
{
    let mut object = RowObject::new();
    let n = batch.num_columns();
    let mut col_idx: usize = 0;
    while col_idx < n
        invariant
            col_idx <= n,
            n == batch@.fields.len(),
            n == batch@.columns.len(),
            row_idx < batch@.num_rows(),
            marshal_columns(batch@, row_idx as int, col_idx as nat) == Ok::<Entries, ErrorView>(
                object@,
            ),
        decreases n - col_idx,
    {
        let field = batch.field(col_idx);
        let cell = batch.cell(col_idx, row_idx);
        match cell_to_value(field.name.as_str(), field.data_type, cell) {
            Ok(value) => {
                object.insert(field.name.clone(), value);
            },
            Err(e) => {
                proof {
                    lemma_failure_stays(batch@, row_idx as int, (col_idx + 1) as nat, n as nat);
                }
                return Err(e);
            },
        }
        col_idx = col_idx + 1;
    }
    Ok(object)
}

/// Once the first `k` columns of a row have failed, so have the first `n`,
/// with the same failure.
pub proof fn lemma_failure_stays(batch: BatchView, row: int, k: nat, n: nat)
    requires
        k <= n,
        marshal_columns(batch, row, k) is Err,
    ensures
        marshal_columns(batch, row, n) == marshal_columns(batch, row, k),
    decreases n - k,
{
    if k < n {
        lemma_failure_stays(batch, row, k, (n - 1) as nat);
    }
}

/// Column `c` is the last of the first `n` columns with its name.
pub open spec fn last_of_its_name(batch: BatchView, c: int, n: nat) -> bool {
    forall|later: int| c < later < n ==> (#[trigger] batch.fields[later]).name != batch.fields[c].name
}

/// In the row object of the first `n` columns no name occurs twice, and under
/// the name of a column stands the value of the cell of the last column of
/// that name.
pub proof fn lemma_marshal_columns(batch: BatchView, row: int, n: nat)
    requires
        marshal_columns(batch, row, n) is Ok,
    ensures
        distinct_keys(marshal_columns(batch, row, n)->Ok_0),
        forall|c: int|
            0 <= c < n && #[trigger] last_of_its_name(batch, c, n) ==> cell_value(
                batch.fields[c].name,
                batch.fields[c].data_type,
                batch.columns[c][row],
            ) is Ok && lookup(marshal_columns(batch, row, n)->Ok_0, batch.fields[c].name) == Some(
                cell_value(
                    batch.fields[c].name,
                    batch.fields[c].data_type,
                    batch.columns[c][row],
                )->Ok_0,
            ),
    decreases n,
{
    if n > 0 {
        let m = (n - 1) as nat;
        lemma_marshal_columns(batch, row, m);
        let before = marshal_columns(batch, row, m)->Ok_0;
        let field = batch.fields[n - 1];
        let value = cell_value(field.name, field.data_type, batch.columns[n - 1][row])->Ok_0;
        let after = marshal_columns(batch, row, n)->Ok_0;
        assert(after == upsert(before, field.name, value));
        lemma_upsert(before, field.name, value);
        assert forall|c: int| 0 <= c < n && #[trigger] last_of_its_name(batch, c, n) implies lookup(
            after,
            batch.fields[c].name,
        ) == Some(
            cell_value(batch.fields[c].name, batch.fields[c].data_type, batch.columns[c][row])->Ok_0,
        ) && cell_value(batch.fields[c].name, batch.fields[c].data_type, batch.columns[c][row])
            is Ok by {
            if c < n - 1 {
                assert(batch.fields[n - 1].name != batch.fields[c].name);
                assert(last_of_its_name(batch, c, m));
            }
        }
    }
}

/// An integer of any width in a field called `id`, or whose name ends in
/// `_id`, is shown as the exact decimal text of the number.
pub proof fn lemma_identifier_cell_is_decimal_text(name: Seq<char>, data_type: DataType, v: int)
    requires
        is_identifier_name(name),
    ensures
        data_type.is_signed_integer() ==> cell_value(name, data_type, CellView::Int(v)) == Ok::<
            ValueView,
            ErrorView,
        >(ValueView::String(decimal_text(v))),
        data_type.is_unsigned_integer() ==> cell_value(name, data_type, CellView::UInt(v)) == Ok::<
            ValueView,
            ErrorView,
        >(ValueView::String(decimal_text(v))),
{
}

/// In a marshalled row, an identifier-like integer field holds the exact
/// decimal text of its cell.
pub proof fn lemma_identifier_field_is_decimal_text(batch: BatchView, row: int, c: int, v: int)
    requires
        marshal_row(batch, row) is Ok,
        0 <= c < batch.fields.len(),
        last_of_its_name(batch, c, batch.fields.len()),
        is_identifier_name(batch.fields[c].name),
        batch.fields[c].data_type.is_signed_integer() && batch.columns[c][row] == CellView::Int(v)
            || batch.fields[c].data_type.is_unsigned_integer() && batch.columns[c][row]
            == CellView::UInt(v),
    ensures
        lookup(marshal_row(batch, row)->Ok_0, batch.fields[c].name) == Some(
            ValueView::String(decimal_text(v)),
        ),
{
    lemma_marshal_columns(batch, row, batch.fields.len());
    lemma_identifier_cell_is_decimal_text(batch.fields[c].name, batch.fields[c].data_type, v);
}

/// An unsigned 64-bit number in a field that is not identifier-like is shown
/// as an integer if and only if it is at most the largest signed 64-bit
/// integer, and as its decimal text otherwise.
pub proof fn lemma_unsigned_64_bit_cells(name: Seq<char>, v: u64)
    requires
        !is_identifier_name(name),
    ensures
        v <= i64::MAX ==> cell_value(name, DataType::UInt64, CellView::UInt(v as int)) == Ok::<
            ValueView,
            ErrorView,
        >(ValueView::Integer(v as int)),
        v > i64::MAX ==> cell_value(name, DataType::UInt64, CellView::UInt(v as int)) == Ok::<
            ValueView,
            ErrorView,
        >(ValueView::String(decimal_text(v as int))),
        cell_value(name, DataType::UInt64, CellView::UInt(v as int)) matches Ok(
            ValueView::Integer(_),
        ) <==> v <= i64::MAX,
{
}

} // verus!
