use nouninator::schema::{register_custom_scalars, Date, DateTime, ScalarKind, Value};

fn text(s: &str) -> Value {
    Value::String(s.to_string())
}

#[test]
fn test_date_scalar_registration() {
    let scalars = register_custom_scalars();
    assert_eq!(scalars.len(), 2);
}

#[test]
fn test_datetime_scalar_registration() {
    let scalars = register_custom_scalars();
    assert_eq!(scalars.len(), 2);
}

#[test]
fn test_date_validation_valid() {
    assert!(Date::validate(&text("2024-01-15")));
}

#[test]
fn test_date_validation_invalid() {
    assert!(!Date::validate(&text("invalid-date")));
}

#[test]
fn test_datetime_validation_valid() {
    assert!(DateTime::validate(&text("2024-01-15T10:00:00Z")));
}

#[test]
fn test_datetime_validation_invalid() {
    assert!(!DateTime::validate(&text("not-a-datetime")));
}

#[test]
fn the_scalars_are_the_date_and_the_instant() {
    let scalars = register_custom_scalars();
    assert_eq!(scalars[0].name, "Date");
    assert_eq!(scalars[0].description, "ISO 8601 date format (YYYY-MM-DD)");
    assert_eq!(scalars[0].kind, ScalarKind::Date);
    assert_eq!(scalars[1].name, "DateTime");
    assert_eq!(scalars[1].description, "ISO 8601 datetime format with timezone");
    assert_eq!(scalars[1].kind, ScalarKind::DateTime);
    let copy = scalars[1].clone();
    assert_eq!(copy.name, "DateTime");
    assert_eq!(copy.kind, ScalarKind::DateTime);
}

#[test]
fn validators_go_by_the_scalar() {
    let scalars = register_custom_scalars();
    assert!(scalars[0].validate(&text("2024-02-29")));
    assert!(!scalars[0].validate(&text("2023-02-29")));
    assert!(!scalars[0].validate(&text("2024-01-15T10:00:00Z")));
    assert!(scalars[1].validate(&text("2024-01-15T10:00:00+02:00")));
    assert!(!scalars[1].validate(&text("2024-01-15")));
}

#[test]
fn only_texts_are_dates_or_instants() {
    for value in [Value::Null, Value::Integer(20240115), Value::Float(0), Value::Boolean(true)] {
        assert!(!Date::validate(&value));
        assert!(!DateTime::validate(&value));
    }
    assert!(!Date::validate(&text("")));
    assert!(!DateTime::validate(&text("")));
    assert!(!Date::validate(&text("2024-13-01")));
    assert!(!DateTime::validate(&text("2024-01-15T25:00:00Z")));
}
