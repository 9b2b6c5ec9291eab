use nouninator::schema::query::{is_control_char, strip_controls};
use nouninator::schema::resolver::{
    all_rows, complete, complete_lookup, complete_page, engine_failure, find_argument, first_row,
    plan_lookup, plan_page, resolve_property, EngineFailure, Resolved,
};
use nouninator::schema::type_mapping::TypeRef;
use nouninator::schema::{
    create_get_resolver, create_list_resolver, Argument, Cell, DataType, FieldDescriptor, Input,
    Query, RecordBatch, Resolver, RowObject, Value,
};
use nouninator::{EntityConfig, ErrorKind};

fn entity() -> EntityConfig {
    EntityConfig {
        table: "main.sales.order_items".to_string(),
        graphql_name: "OrderItem".to_string(),
        primary_key: "item_id".to_string(),
        description: None,
        storage_location: None,
    }
}

fn columns() -> Vec<String> {
    vec!["item_id".to_string(), "name".to_string()]
}

fn arg(name: &str, value: Value) -> Argument {
    Argument { name: name.to_string(), value: Input::Value(value) }
}

fn other(name: &str) -> Argument {
    Argument { name: name.to_string(), value: Input::Other }
}

fn text(s: &str) -> Value {
    Value::String(s.to_string())
}

#[test]
fn the_point_lookup_of_an_entity() {
    let field = create_get_resolver(&entity(), &columns());
    assert_eq!(field.name, "order_item");
    assert_eq!(field.type_ref, TypeRef::named("OrderItem"));
    assert_eq!(field.type_ref.to_string(), "OrderItem");
    assert_eq!(field.arguments.len(), 1);
    assert_eq!(field.arguments[0].name, "item_id");
    assert_eq!(field.arguments[0].type_ref.to_string(), "ID!");
    match &field.resolver {
        Resolver::Get { table, primary_key, columns } => {
            assert_eq!(table, "main.sales.order_items");
            assert_eq!(primary_key, "item_id");
            assert_eq!(columns, &vec!["item_id".to_string(), "name".to_string()]);
        }
        _ => panic!("expected a point lookup"),
    }
}

#[test]
fn the_listing_of_an_entity() {
    let field = create_list_resolver(&entity(), &columns());
    assert_eq!(field.name, "list_order_item");
    assert_eq!(field.type_ref.to_string(), "[OrderItem!]!");
    assert_eq!(field.arguments.len(), 2);
    assert_eq!(field.arguments[0].name, "limit");
    assert_eq!(field.arguments[0].type_ref.to_string(), "Int");
    assert_eq!(field.arguments[1].name, "offset");
    assert_eq!(field.arguments[1].type_ref.to_string(), "Int");
    match &field.resolver {
        Resolver::List { table, columns } => {
            assert_eq!(table, "main.sales.order_items");
            assert_eq!(columns.len(), 2);
        }
        _ => panic!("expected a listing"),
    }
}

#[test]
fn a_lookup_selects_by_the_text_of_the_key() {
    let q = plan_lookup("t", "item_id", &columns(), &vec![arg("item_id", text("3"))]).unwrap();
    assert_eq!(q.to_sql(), "SELECT \"item_id\", \"name\" FROM \"t\" WHERE \"item_id\" = '3'");
    match &q {
        Query::Lookup { key, key_column, table, .. } => {
            assert_eq!(key, "3");
            assert_eq!(key_column, "item_id");
            assert_eq!(table, "t");
        }
        _ => panic!("expected a lookup"),
    }
    let q = plan_lookup("t", "item_id", &columns(), &vec![arg("item_id", text("-42"))]).unwrap();
    assert_eq!(q.to_sql(), "SELECT \"item_id\", \"name\" FROM \"t\" WHERE \"item_id\" = '-42'");
}

#[test]
fn a_lookup_without_its_key_is_an_argument_error() {
    let e = plan_lookup("t", "item_id", &columns(), &vec![]).unwrap_err();
    assert_eq!(e.kind(), ErrorKind::Argument);
    assert_eq!(e.message(), "Primary key 'item_id' argument missing");
    assert_eq!(e.to_string(), "Argument error: Primary key 'item_id' argument missing");
    let e = plan_lookup("t", "item_id", &columns(), &vec![arg("id", text("3"))]).unwrap_err();
    assert_eq!(e.message(), "Primary key 'item_id' argument missing");
}

#[test]
fn a_lookup_with_a_mistyped_key_is_an_argument_error() {
    for value in [
        Value::Null,
        Value::Boolean(true),
        Value::Float(0),
        Value::Integer(3),
        Value::Integer(-42),
    ] {
        let e = plan_lookup("t", "item_id", &columns(), &vec![arg("item_id", value)])
            .unwrap_err();
        assert_eq!(e.kind(), ErrorKind::Argument);
        assert_eq!(e.message(), "Primary key must be a string");
    }
    let e = plan_lookup("t", "item_id", &columns(), &vec![other("item_id")]).unwrap_err();
    assert_eq!(e.kind(), ErrorKind::Argument);
    assert_eq!(e.message(), "Primary key must be a string");
    let get = create_get_resolver(&entity(), &columns());
    let e = get.resolver.plan(&vec![arg("item_id", Value::Integer(3))]).unwrap_err();
    assert_eq!(e.kind(), ErrorKind::Argument);
}

#[test]
fn the_first_argument_of_a_name_counts() {
    let args = vec![arg("a", Value::Integer(1)), arg("b", Value::Null), arg("a", text("x"))];
    assert_eq!(find_argument(&args, "a"), Some(&Input::Value(Value::Integer(1))));
    assert_eq!(find_argument(&args, "b"), Some(&Input::Value(Value::Null)));
    assert_eq!(find_argument(&args, "c"), None);
    assert_eq!(find_argument(&vec![other("a"), arg("a", text("x"))], "a"), Some(&Input::Other));
}

fn page(args: Vec<Argument>) -> (i64, i64) {
    match plan_page("t", &columns(), &args).unwrap() {
        Query::Page { limit, offset, .. } => (limit, offset),
        _ => panic!("expected a page"),
    }
}

#[test]
fn the_limit_defaults_to_100_and_is_clamped_to_1000() {
    assert_eq!(page(vec![]), (100, 0));
    assert_eq!(page(vec![arg("limit", Value::Null), arg("offset", Value::Null)]), (100, 0));
    assert_eq!(page(vec![arg("limit", Value::Integer(0))]), (0, 0));
    assert_eq!(page(vec![arg("limit", Value::Integer(1))]), (1, 0));
    assert_eq!(page(vec![arg("limit", Value::Integer(1000))]), (1000, 0));
    assert_eq!(page(vec![arg("limit", Value::Integer(1001))]), (1000, 0));
    assert_eq!(page(vec![arg("limit", Value::Integer(5000))]), (1000, 0));
    assert_eq!(page(vec![arg("limit", Value::Integer(i64::MAX))]), (1000, 0));
    assert_eq!(page(vec![arg("limit", Value::Integer(-5))]), (-5, 0));
}

#[test]
fn the_offset_has_no_upper_bound() {
    assert_eq!(page(vec![arg("offset", Value::Integer(7))]), (100, 7));
    assert_eq!(page(vec![arg("offset", Value::Integer(i64::MAX))]), (100, i64::MAX));
    assert_eq!(
        page(vec![arg("offset", Value::Integer(3)), arg("limit", Value::Integer(3))]),
        (3, 3)
    );
}

#[test]
fn mistyped_paging_arguments_are_argument_errors() {
    let e = plan_page("t", &columns(), &vec![arg("limit", text("10"))]).unwrap_err();
    assert_eq!(e.kind(), ErrorKind::Argument);
    assert_eq!(e.message(), "Argument 'limit' must be an integer");
    let e = plan_page("t", &columns(), &vec![arg("offset", Value::Boolean(false))]).unwrap_err();
    assert_eq!(e.kind(), ErrorKind::Argument);
    assert_eq!(e.message(), "Argument 'offset' must be an integer");
    let e = plan_page("t", &columns(), &vec![other("limit")]).unwrap_err();
    assert_eq!(e.kind(), ErrorKind::Argument);
    assert_eq!(e.message(), "Argument 'limit' must be an integer");
    let e = plan_page("t", &columns(), &vec![other("offset")]).unwrap_err();
    assert_eq!(e.message(), "Argument 'offset' must be an integer");
    let e = plan_page(
        "t",
        &columns(),
        &vec![arg("offset", Value::Float(0)), arg("limit", Value::Float(0))],
    )
    .unwrap_err();
    assert_eq!(e.message(), "Argument 'limit' must be an integer");
}

#[test]
fn the_text_of_a_page() {
    let q = plan_page(
        "main.sales.order_items",
        &columns(),
        &vec![arg("limit", Value::Integer(3)), arg("offset", Value::Integer(3))],
    )
    .unwrap();
    assert_eq!(
        q.to_sql(),
        "SELECT \"item_id\", \"name\" FROM \"main.sales.order_items\" LIMIT 3 OFFSET 3"
    );
    let q = plan_page("t", &vec![], &vec![]).unwrap();
    assert_eq!(q.to_sql(), "SELECT * FROM \"t\" LIMIT 100 OFFSET 0");
    let q = plan_page("t", &vec!["only".to_string()], &vec![arg("limit", Value::Integer(9000))])
        .unwrap();
    assert_eq!(q.to_sql(), "SELECT \"only\" FROM \"t\" LIMIT 1000 OFFSET 0");
    assert_eq!(q.clone().to_sql(), q.to_sql());
}

fn lookup_sql(table: &str, column: &str, key: &str) -> String {
    Query::Lookup {
        table: table.to_string(),
        columns: vec![],
        key_column: column.to_string(),
        key: key.to_string(),
    }
    .to_sql()
}

#[test]
fn quotes_in_keys_are_doubled() {
    assert_eq!(lookup_sql("t", "k", "O'Brien"), "SELECT * FROM \"t\" WHERE \"k\" = 'O''Brien'");
    assert_eq!(
        lookup_sql("t", "k", "' OR '1'='1"),
        "SELECT * FROM \"t\" WHERE \"k\" = ''' OR ''1''=''1'"
    );
    assert_eq!(lookup_sql("t", "k", "'"), "SELECT * FROM \"t\" WHERE \"k\" = ''''");
    assert_eq!(lookup_sql("t", "k", "''"), "SELECT * FROM \"t\" WHERE \"k\" = ''''''");
    assert_eq!(lookup_sql("t", "k", ""), "SELECT * FROM \"t\" WHERE \"k\" = ''");
    assert_eq!(
        lookup_sql("t", "k", "a\"b; DROP TABLE t; --"),
        "SELECT * FROM \"t\" WHERE \"k\" = 'a\"b; DROP TABLE t; --'"
    );
}

#[test]
fn control_characters_in_keys_are_left_out() {
    assert_eq!(
        lookup_sql("t", "k", "a\nb\tc\r\0d\u{7f}e\u{85}f\u{1b}"),
        "SELECT * FROM \"t\" WHERE \"k\" = 'abcdef'"
    );
    assert_eq!(lookup_sql("t", "k", "\n'\n"), "SELECT * FROM \"t\" WHERE \"k\" = ''''");
    assert_eq!(strip_controls("plain text é 日本"), "plain text é 日本");
    assert_eq!(strip_controls("\u{0}\u{1f}\u{7f}\u{9f}"), "");
    assert_eq!(strip_controls(" \u{20}\u{7e}\u{a0}"), " \u{20}\u{7e}\u{a0}");
    assert!(is_control_char('\n'));
    assert!(is_control_char('\u{9f}'));
    assert!(!is_control_char(' '));
    assert!(!is_control_char('\u{a0}'));
}

#[test]
fn quotes_in_identifiers_are_doubled() {
    assert_eq!(
        lookup_sql("we\"ird", "co\"\"l", "x"),
        "SELECT * FROM \"we\"\"ird\" WHERE \"co\"\"\"\"l\" = 'x'"
    );
    let q = Query::Page {
        table: "t".to_string(),
        columns: vec!["a\"b".to_string(), "c'd".to_string(), String::new()],
        limit: -1,
        offset: -2,
    };
    assert_eq!(q.to_sql(), "SELECT \"a\"\"b\", \"c'd\", \"\" FROM \"t\" LIMIT -1 OFFSET -2");
}

#[test]
fn resolvers_plan_by_their_kind() {
    let get = create_get_resolver(&entity(), &columns());
    let planned = get.resolver.plan(&vec![arg("item_id", text("7"))]).unwrap().unwrap();
    assert_eq!(
        planned.to_sql(),
        "SELECT \"item_id\", \"name\" FROM \"main.sales.order_items\" WHERE \"item_id\" = '7'"
    );
    assert_eq!(get.resolver.plan(&vec![]).unwrap_err().kind(), ErrorKind::Argument);
    let list = create_list_resolver(&entity(), &columns());
    let planned = list.resolver.plan(&vec![]).unwrap().unwrap();
    assert_eq!(
        planned.to_sql(),
        "SELECT \"item_id\", \"name\" FROM \"main.sales.order_items\" LIMIT 100 OFFSET 0"
    );
    assert!(Resolver::Property.plan(&vec![arg("limit", text("x"))]).unwrap().is_none());
    let copy = list.resolver.clone();
    assert_eq!(copy.plan(&vec![]).unwrap().unwrap().to_sql(), planned.to_sql());
}

fn batch(ids: &[i64]) -> RecordBatch {
    RecordBatch::try_new(
        vec![
            FieldDescriptor::new("item_id", DataType::Int64, false),
            FieldDescriptor::new("name", DataType::Utf8, true),
        ],
        vec![
            ids.iter().map(|i| Cell::Int(*i)).collect(),
            ids.iter().map(|i| Cell::Text(format!("item {}", i))).collect(),
        ],
    )
    .unwrap()
}

fn id_of(row: &RowObject) -> String {
    match row.get("item_id").unwrap() {
        Value::String(s) => s.clone(),
        _ => panic!("expected a text"),
    }
}

#[test]
fn a_lookup_without_rows_is_nothing_and_no_failure() {
    assert_eq!(first_row(&vec![]).unwrap(), None);
    assert_eq!(first_row(&vec![batch(&[])]).unwrap(), None);
    assert_eq!(first_row(&vec![batch(&[]), batch(&[])]).unwrap(), None);
    assert_eq!(complete_lookup(Ok(vec![batch(&[])])).unwrap(), None);
}

#[test]
fn a_lookup_gives_the_first_row() {
    let row = first_row(&vec![batch(&[3])]).unwrap().unwrap();
    assert_eq!(id_of(&row), "3");
    assert_eq!(row.get("name"), Some(&text("item 3")));
    let row = first_row(&vec![batch(&[]), batch(&[8, 9]), batch(&[10])]).unwrap().unwrap();
    assert_eq!(id_of(&row), "8");
    let row = complete_lookup(Ok(vec![batch(&[5, 6])])).unwrap().unwrap();
    assert_eq!(id_of(&row), "5");
}

#[test]
fn a_listing_gives_every_row_in_scan_order() {
    assert_eq!(all_rows(&vec![]).unwrap().len(), 0);
    assert_eq!(all_rows(&vec![batch(&[]), batch(&[])]).unwrap().len(), 0);
    let rows = all_rows(&vec![batch(&[4, 5]), batch(&[]), batch(&[6])]).unwrap();
    let ids: Vec<String> = rows.iter().map(id_of).collect();
    assert_eq!(ids, vec!["4", "5", "6"]);
    let rows = complete_page(Ok(vec![batch(&[1, 2, 3])])).unwrap();
    assert_eq!(rows.len(), 3);
    assert_eq!(complete_page(Ok(vec![])).unwrap().len(), 0);
}

fn broken() -> RecordBatch {
    RecordBatch::try_new(
        vec![FieldDescriptor::new("price", DataType::Float64, false)],
        vec![vec![Cell::Float(1.0f64.to_bits()), Cell::Float(f64::INFINITY.to_bits())]],
    )
    .unwrap()
}

#[test]
fn a_row_that_cannot_be_shown_fails_the_field() {
    let e = all_rows(&vec![batch(&[1]), broken(), batch(&[2])]).unwrap_err();
    assert_eq!(e.kind(), ErrorKind::Encoding);
    assert_eq!(e.message(), "Invalid float value");
    assert!(first_row(&vec![broken()]).is_ok());
    let nan = RecordBatch::try_new(
        vec![FieldDescriptor::new("price", DataType::Float64, false)],
        vec![vec![Cell::Float(f64::NAN.to_bits())]],
    )
    .unwrap();
    let e = first_row(&vec![nan]).unwrap_err();
    assert_eq!(e.kind(), ErrorKind::Encoding);
}

#[test]
fn failures_of_the_engine_are_failures_of_the_field() {
    let e = complete_lookup(Err(EngineFailure::Execution("table 'x' not found".to_string())))
        .unwrap_err();
    assert_eq!(e.kind(), ErrorKind::Engine);
    assert_eq!(e.message(), "Query execution failed: table 'x' not found");
    assert_eq!(
        e.to_string(),
        "Query execution error: Query execution failed: table 'x' not found"
    );
    let e = complete_page(Err(EngineFailure::Collection("connection lost".to_string())))
        .unwrap_err();
    assert_eq!(e.kind(), ErrorKind::Engine);
    assert_eq!(e.message(), "Data collection failed: connection lost");
    let e = engine_failure(&EngineFailure::Execution(String::new()));
    assert_eq!(e.message(), "Query execution failed: ");
}

#[test]
fn fields_of_an_entity_read_the_row() {
    let row = first_row(&vec![batch(&[3])]).unwrap().unwrap();
    assert_eq!(resolve_property(&row, "item_id"), text("3"));
    assert_eq!(resolve_property(&row, "name"), text("item 3"));
    assert_eq!(resolve_property(&row, "missing"), Value::Null);
}

#[test]
fn operations_complete_by_their_query() {
    let lookup = plan_lookup("t", "item_id", &columns(), &vec![arg("item_id", text("3"))]).unwrap();
    match complete(&lookup, Ok(vec![batch(&[3, 4])])).unwrap() {
        Resolved::Row(Some(row)) => assert_eq!(id_of(&row), "3"),
        _ => panic!("expected a row"),
    }
    assert_eq!(complete(&lookup, Ok(vec![])).unwrap(), Resolved::Row(None));
    let page = plan_page("t", &columns(), &vec![]).unwrap();
    match complete(&page, Ok(vec![batch(&[3, 4]), batch(&[5])])).unwrap() {
        Resolved::Rows(rows) => assert_eq!(rows.len(), 3),
        _ => panic!("expected rows"),
    }
    assert_eq!(complete(&page, Ok(vec![])).unwrap(), Resolved::Rows(vec![]));
    let e = complete(&page, Err(EngineFailure::Execution("down".to_string()))).unwrap_err();
    assert_eq!(e.kind(), ErrorKind::Engine);
    assert_eq!(e.message(), "Query execution failed: down");
    let e = complete(&lookup, Err(EngineFailure::Collection("lost".to_string()))).unwrap_err();
    assert_eq!(e.message(), "Data collection failed: lost");
    let e = complete(&page, Ok(vec![broken()])).unwrap_err();
    assert_eq!(e.kind(), ErrorKind::Encoding);
}
