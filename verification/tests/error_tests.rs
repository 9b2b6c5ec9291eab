use nouninator::{ErrorKind, NouninatorError};

fn check(e: NouninatorError, kind: ErrorKind, text: &str) {
    assert_eq!(e.kind(), kind);
    assert_eq!(e.message(), "m");
    assert_eq!(e.to_string(), text);
}

#[test]
fn every_kind_of_error_has_its_words() {
    let m = || "m".to_string();
    check(NouninatorError::UnityApi(m()), ErrorKind::UnityApi, "Unity Catalog API error: m");
    check(NouninatorError::Network(m()), ErrorKind::Network, "Network error: m");
    check(NouninatorError::Unauthorized(m()), ErrorKind::Unauthorized, "Authentication failed: m");
    check(NouninatorError::TableNotFound(m()), ErrorKind::TableNotFound, "Table not found: m");
    check(NouninatorError::DeltaTable(m()), ErrorKind::DeltaTable, "Delta table error: m");
    check(NouninatorError::DataFusion(m()), ErrorKind::DataFusion, "DataFusion error: m");
    check(NouninatorError::Config(m()), ErrorKind::Config, "Configuration error: m");
    check(
        NouninatorError::SchemaGeneration(m()),
        ErrorKind::SchemaGeneration,
        "Schema generation error: m",
    );
    check(NouninatorError::Argument(m()), ErrorKind::Argument, "Argument error: m");
    check(NouninatorError::Engine(m()), ErrorKind::Engine, "Query execution error: m");
    check(NouninatorError::Encoding(m()), ErrorKind::Encoding, "Encoding error: m");
    check(NouninatorError::Io(m()), ErrorKind::Io, "IO error: m");
    check(NouninatorError::Serialization(m()), ErrorKind::Serialization, "Serialization error: m");
}

#[test]
fn an_error_with_an_empty_message() {
    let e = NouninatorError::Config(String::new());
    assert_eq!(e.message(), "");
    assert_eq!(e.to_string(), "Configuration error: ");
}
