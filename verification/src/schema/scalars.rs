//! The two custom scalars: calendar dates and instants, each with the
//! validator that reads its own text form.

use vstd::prelude::*;
use crate::schema::calendar::{
    date_text_accepted, instant_text_accepted, parses_as_date, parses_as_instant,
};
use crate::schema::marshal::DATE_FORMAT;
use crate::schema::type_mapping::{DATE, DATE_TIME};
use crate::schema::value::{Value, ValueView};

verus! {

/// The calendar date scalar: a text of year, month and day.
#[derive(Debug, Clone, Copy)]
pub struct Date;

/// The instant scalar: an RFC 3339 text.
#[derive(Debug, Clone, Copy)]
pub struct DateTime;

/// Which scalar a descriptor stands for.
#[derive(Debug, Clone, Copy, PartialEq, Eq, Structural)]
pub enum ScalarKind {
    Date,
    DateTime,
}

/// A value is a date where it is a text that reads as a date of year, month
/// and day.
pub open spec fn date_accepted(value: ValueView) -> bool {
    match value {
        ValueView::String(s) => date_text_accepted(s, DATE_FORMAT@),
        _ => false,
    }
}

/// A value is an instant where it is a text that reads as an RFC 3339
/// instant.
pub open spec fn instant_accepted(value: ValueView) -> bool {
    match value {
        ValueView::String(s) => instant_text_accepted(s),
        _ => false,
    }
}

impl Date {
    /// Whether `value` is a date.
    pub fn validate(value: &Value) -> (ok: bool)
        ensures
            ok == date_accepted(value@),
    {
        match value {
            Value::String(s) => parses_as_date(s.as_str(), DATE_FORMAT),
            _ => false,
        }
    }
}

impl DateTime {
    /// Whether `value` is an instant.
    pub fn validate(value: &Value) -> (ok: bool)
        ensures
            ok == instant_accepted(value@),
    {
        match value {
            Value::String(s) => parses_as_instant(s.as_str()),
            _ => false,
        }
    }
}

/// A custom scalar of the schema.
#[derive(Debug)]
pub struct Scalar {
    pub name: String,
    pub description: String,
    pub kind: ScalarKind,
}

/// A scalar in contracts.
pub struct ScalarView {
    pub name: Seq<char>,
    pub description: Seq<char>,
    pub kind: ScalarKind,
}

impl View for Scalar {
    type V = ScalarView;

    open spec fn view(&self) -> ScalarView {
        ScalarView { name: self.name@, description: self.description@, kind: self.kind }
    }
}

/// What the validator of a scalar accepts.
pub open spec fn scalar_accepts(kind: ScalarKind, value: ValueView) -> bool {
    match kind {
        ScalarKind::Date => date_accepted(value),
        ScalarKind::DateTime => instant_accepted(value),
    }
}

/// The date scalar.
pub open spec fn date_scalar_view() -> ScalarView {
    ScalarView {
        name: DATE@,
        description: "ISO 8601 date format (YYYY-MM-DD)"@,
        kind: ScalarKind::Date,
    }
}

/// The instant scalar.
pub open spec fn datetime_scalar_view() -> ScalarView {
    ScalarView {
        name: DATE_TIME@,
        description: "ISO 8601 datetime format with timezone"@,
        kind: ScalarKind::DateTime,
    }
}

impl Scalar {
    /// Whether this scalar's validator accepts `value`.
    pub fn validate(&self, value: &Value) -> (ok: bool)
        ensures
            ok == scalar_accepts(self.kind, value@),
    {
        match self.kind {
            ScalarKind::Date => Date::validate(value),
            ScalarKind::DateTime => DateTime::validate(value),
        }
    }
}

impl Clone for Scalar {
    /// A copy of this scalar.
    fn clone(&self) -> (s: Scalar)
        ensures
            s@ == self@,
    {
        Scalar { name: self.name.clone(), description: self.description.clone(), kind: self.kind }
    }
}

/// The descriptor of the date scalar.
pub fn date_scalar() -> (s: Scalar)
    ensures
        s@ == date_scalar_view(),
{
    Scalar {
        name: DATE.to_owned(),
        description: "ISO 8601 date format (YYYY-MM-DD)".to_owned(),
        kind: ScalarKind::Date,
    }
}

/// The descriptor of the instant scalar.
pub fn datetime_scalar() -> (s: Scalar)
    ensures
        s@ == datetime_scalar_view(),
{
    Scalar {
        name: DATE_TIME.to_owned(),
        description: "ISO 8601 datetime format with timezone".to_owned(),
        kind: ScalarKind::DateTime,
    }
}

/// The custom scalars of every schema: the date, then the instant.
pub fn register_custom_scalars() -> (scalars: Vec<Scalar>)
    ensures
        scalars@.len() == 2,
        scalars@[0]@ == date_scalar_view(),
        scalars@[1]@ == datetime_scalar_view(),
{
    let mut scalars: Vec<Scalar> = Vec::new();
    scalars.push(date_scalar());
    scalars.push(datetime_scalar());
    scalars
}

} // verus!
