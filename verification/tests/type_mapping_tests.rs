use nouninator::schema::type_mapping::{is_identifier_field, omitted_columns, TypeRef};
use nouninator::schema::{
    arrow_to_graphql_type, to_snake_case, DataType, FieldDescriptor, SchemaBuilder, TimeUnit,
};

#[test]
fn test_int64_to_int() {
    let type_ref = arrow_to_graphql_type("count", &DataType::Int64, false).expect("Should map");

    assert!(type_ref.to_string().contains("Int"));
}

#[test]
fn test_int64_to_id_inference() {
    let type_ref =
        arrow_to_graphql_type("customer_id", &DataType::Int64, false).expect("Should map");

    assert!(type_ref.to_string().contains("ID"));
}

#[test]
fn test_id_field_inference() {
    let type_ref = arrow_to_graphql_type("id", &DataType::Int64, false).expect("Should map");

    assert!(type_ref.to_string().contains("ID"));
}

#[test]
fn test_string_mapping() {
    let type_ref = arrow_to_graphql_type("name", &DataType::Utf8, false).expect("Should map");

    assert!(type_ref.to_string().contains("String"));
}

#[test]
fn test_nullable_field() {
    let type_ref = arrow_to_graphql_type("name", &DataType::Utf8, true).expect("Should map");

    let type_str = type_ref.to_string();
    assert!(type_str.contains("String"));
    assert!(!type_str.ends_with('!'));
}

#[test]
fn test_non_nullable_field() {
    let type_ref = arrow_to_graphql_type("name", &DataType::Utf8, false).expect("Should map");

    let type_str = type_ref.to_string();
    assert!(type_str.contains("String!"));
}

#[test]
fn test_float_mapping() {
    let type_ref = arrow_to_graphql_type("price", &DataType::Float64, false).expect("Should map");

    assert!(type_ref.to_string().contains("Float"));
}

#[test]
fn test_boolean_mapping() {
    let type_ref = arrow_to_graphql_type("active", &DataType::Boolean, false).expect("Should map");

    assert!(type_ref.to_string().contains("Boolean"));
}

#[test]
fn test_date_mapping() {
    let type_ref =
        arrow_to_graphql_type("birth_date", &DataType::Date32, false).expect("Should map");

    assert!(type_ref.to_string().contains("Date"));
}

#[test]
fn test_timestamp_mapping() {
    let type_ref = arrow_to_graphql_type(
        "created_at",
        &DataType::Timestamp(TimeUnit::Nanosecond),
        false,
    )
    .expect("Should map");

    assert!(type_ref.to_string().contains("DateTime"));
}

#[test]
fn test_struct_returns_none() {
    let type_ref = arrow_to_graphql_type("nested", &DataType::Struct, false);

    assert!(type_ref.is_none());
}

#[test]
fn type_mapping_test_to_snake_case() {
    assert_eq!(to_snake_case("Customer"), "customer");
    assert_eq!(to_snake_case("OrderItem"), "order_item");
    assert_eq!(to_snake_case("SimpleWord"), "simple_word");
    assert_eq!(to_snake_case("already_snake"), "already_snake");
}

#[test]
fn builder_test_to_snake_case() {
    assert_eq!(to_snake_case("Customer"), "customer");
    assert_eq!(to_snake_case("OrderItem"), "order_item");
}

#[test]
fn test_schema_builder_creation() {
    let builder = SchemaBuilder::new();
    assert_eq!(builder.num_tables(), 0);
}

#[test]
fn snake_case_edge_cases() {
    assert_eq!(to_snake_case(""), "");
    assert_eq!(to_snake_case("A"), "a");
    assert_eq!(to_snake_case("ABC"), "a_b_c");
    assert_eq!(to_snake_case("Item2Go"), "item2_go");
    assert_eq!(to_snake_case("Éclair"), "Éclair");
    assert_eq!(to_snake_case("CaféÉclair"), "café_Éclair");
}

const INTEGERS: [DataType; 8] = [
    DataType::Int8,
    DataType::Int16,
    DataType::Int32,
    DataType::Int64,
    DataType::UInt8,
    DataType::UInt16,
    DataType::UInt32,
    DataType::UInt64,
];

#[test]
fn every_identifier_like_integer_is_an_id() {
    for data_type in INTEGERS.iter() {
        for name in ["id", "customer_id", "_id", "x_id"] {
            assert_eq!(
                arrow_to_graphql_type(name, data_type, false),
                Some(TypeRef::named_nn("ID"))
            );
            assert_eq!(arrow_to_graphql_type(name, data_type, true), Some(TypeRef::named("ID")));
        }
        for name in ["count", "ids", "identity", "ID", "Id", "customer_ID", "id_", "", "d"] {
            assert_eq!(
                arrow_to_graphql_type(name, data_type, false),
                Some(TypeRef::named_nn("Int"))
            );
        }
    }
}

#[test]
fn identifier_names() {
    assert!(is_identifier_field("id"));
    assert!(is_identifier_field("_id"));
    assert!(is_identifier_field("a_id"));
    assert!(!is_identifier_field("aid"));
    assert!(!is_identifier_field("i"));
    assert!(!is_identifier_field(""));
    assert!(!is_identifier_field("id "));
}

#[test]
fn identifier_inference_is_for_integers_only() {
    assert_eq!(
        arrow_to_graphql_type("customer_id", &DataType::Utf8, false),
        Some(TypeRef::named_nn("String"))
    );
    assert_eq!(
        arrow_to_graphql_type("id", &DataType::Float64, true),
        Some(TypeRef::named("Float"))
    );
}

#[test]
fn every_type_has_its_scalar() {
    let cases = [
        (DataType::Float16, "Float"),
        (DataType::Float32, "Float"),
        (DataType::Float64, "Float"),
        (DataType::Utf8, "String"),
        (DataType::LargeUtf8, "String"),
        (DataType::Boolean, "Boolean"),
        (DataType::Date32, "Date"),
        (DataType::Date64, "Date"),
        (DataType::Timestamp(TimeUnit::Second), "DateTime"),
        (DataType::Timestamp(TimeUnit::Millisecond), "DateTime"),
        (DataType::Timestamp(TimeUnit::Microsecond), "DateTime"),
        (DataType::Timestamp(TimeUnit::Nanosecond), "DateTime"),
    ];
    for (data_type, scalar) in cases.iter() {
        let nullable = arrow_to_graphql_type("value", data_type, true).unwrap();
        assert_eq!(nullable, TypeRef::named(scalar));
        assert_eq!(nullable.to_string(), *scalar);
        let required = arrow_to_graphql_type("value", data_type, false).unwrap();
        assert_eq!(required, TypeRef::named_nn(scalar));
        assert_eq!(required.to_string(), format!("{}!", scalar));
    }
}

#[test]
fn unmappable_types_are_left_out() {
    for data_type in [DataType::List, DataType::LargeList, DataType::Struct, DataType::Other] {
        assert_eq!(arrow_to_graphql_type("value", &data_type, true), None);
        assert_eq!(arrow_to_graphql_type("value_id", &data_type, false), None);
    }
}

#[test]
fn type_text() {
    assert_eq!(TypeRef::named("Noun").to_string(), "Noun");
    assert_eq!(TypeRef::named_nn("ID").to_string(), "ID!");
    assert_eq!(TypeRef::named_nn_list_nn("Noun").to_string(), "[Noun!]!");
    assert_eq!(
        TypeRef::List(Box::new(TypeRef::List(Box::new(TypeRef::named("Int"))))).to_string(),
        "[[Int]]"
    );
    let copy = TypeRef::named_nn_list_nn("Noun").clone();
    assert_eq!(copy, TypeRef::named_nn_list_nn("Noun"));
}

#[test]
fn the_columns_that_are_left_out() {
    let fields = vec![
        FieldDescriptor::new("id", DataType::Int64, false),
        FieldDescriptor::new("tags", DataType::List, true),
        FieldDescriptor::new("half", DataType::Float16, true),
        FieldDescriptor::new("nested_id", DataType::Struct, false),
        FieldDescriptor::new("blob", DataType::Other, true),
        FieldDescriptor::new("more", DataType::LargeList, true),
    ];
    assert_eq!(omitted_columns(&fields), vec!["tags", "nested_id", "blob", "more"]);
    assert!(omitted_columns(&vec![]).is_empty());
    assert!(omitted_columns(&vec![FieldDescriptor::new("a", DataType::Date64, true)]).is_empty());
}
