//! The resolver engine: the operations of the query surface, the queries
//! that they plan from their arguments, and the values that they make of
//! what the data engine hands back.

use vstd::prelude::*;
use crate::config::types::{EntityConfig, EntityView};
use crate::error::{ErrorKind, ErrorView, NouninatorError};
use crate::schema::batch::{BatchView, RecordBatch};
use crate::schema::marshal::{marshal_row, record_batch_to_graphql_value};
use crate::schema::query::{Query, QueryView};
use crate::schema::type_mapping::{
    named, named_nn, named_nn_list_nn, snake_case, to_snake_case, TypeNode, TypeRef, ID, INT,
};
use crate::schema::value::{lookup, Entries, RowObject, Value, ValueView};
use crate::text::{concat2, concat3, duplicate_texts, same_text, texts};

verus! {

/// The number of rows that a listing returns where the request names none.
pub const DEFAULT_LIMIT: i64 = 100;

/// The largest number of rows that a listing asks the data engine for.
pub const MAX_LIMIT: i64 = 1000;

/// The name of the argument that bounds a listing.
pub const LIMIT: &'static str = "limit";

/// The name of the argument that skips rows of a listing.
pub const OFFSET: &'static str = "offset";

/// What a request gives for an argument: a value of the API, or something
/// else, such as a list or an object, which is a value of no scalar type.
#[derive(Debug, PartialEq, Eq)]
pub enum Input {
    Value(Value),
    Other,
}

/// What a request gives for an argument, in contracts.
pub enum InputView {
    Value(ValueView),
    Other,
}

impl View for Input {
    type V = InputView;

    open spec fn view(&self) -> InputView {
        match self {
            Input::Value(v) => InputView::Value(v@),
            Input::Other => InputView::Other,
        }
    }
}

/// An argument of a request: its name and what the request gives for it.
#[derive(Debug)]
pub struct Argument {
    pub name: String,
    pub value: Input,
}

/// The arguments of a request in contracts: names and what is given for
/// them, in order.
pub type Arguments = Seq<(Seq<char>, InputView)>;

/// The arguments of a request in contracts.
pub open spec fn argument_views(args: Seq<Argument>) -> Arguments {
    Seq::new(args.len(), |i: int| (args[i].name@, args[i].value@))
}

/// What the first of the first `n` arguments called `name` gives.
pub open spec fn find_given(args: Arguments, name: Seq<char>, n: nat) -> Option<InputView>
    decreases n,
{
    if n == 0 {
        None
    } else {
        match find_given(args, name, (n - 1) as nat) {
            Some(v) => Some(v),
            None => if args[n - 1].0 == name {
                Some(args[n - 1].1)
            } else {
                None
            },
        }
    }
}

/// What the request gives for the argument called `name`, if it names it.
pub open spec fn given(args: Arguments, name: Seq<char>) -> Option<InputView> {
    find_given(args, name, args.len())
}

/// Once an argument is found among the first `k`, it is the one found among
/// the first `n`.
pub proof fn lemma_given_stays(args: Arguments, name: Seq<char>, k: nat, n: nat)
    requires
        k <= n,
        find_given(args, name, k) is Some,
    ensures
        find_given(args, name, n) == find_given(args, name, k),
    decreases n - k,
{
    if k < n {
        lemma_given_stays(args, name, k, (n - 1) as nat);
    }
}

/// An argument that a field declares: its name and its type.
#[derive(Debug)]
pub struct InputValue {
    pub name: String,
    pub type_ref: TypeRef,
}

/// How a field gets its value.
#[derive(Debug)]
pub enum Resolver {
    /// From the field of the same name of the row object above it.
    Property,
    /// By a point lookup: the row of `table` whose `primary_key` equals the
    /// argument of that name.
    Get { table: String, primary_key: String, columns: Vec<String> },
    /// By a paginated listing of the rows of `table`.
    List { table: String, columns: Vec<String> },
}

/// A resolver in contracts.
pub enum ResolverView {
    Property,
    Get { table: Seq<char>, primary_key: Seq<char>, columns: Seq<Seq<char>> },
    List { table: Seq<char>, columns: Seq<Seq<char>> },
}

impl View for Resolver {
    type V = ResolverView;

    open spec fn view(&self) -> ResolverView {
        match self {
            Resolver::Property => ResolverView::Property,
            Resolver::Get { table, primary_key, columns } => ResolverView::Get {
                table: table@,
                primary_key: primary_key@,
                columns: texts(columns@),
            },
            Resolver::List { table, columns } => ResolverView::List {
                table: table@,
                columns: texts(columns@),
            },
        }
    }
}

/// A field of an object type: its name, its type, the arguments it takes and
/// the way it gets its value.
#[derive(Debug)]
pub struct Field {
    pub name: String,
    pub type_ref: TypeRef,
    pub arguments: Vec<InputValue>,
    pub resolver: Resolver,
}

/// A field in contracts.
pub struct OperationView {
    pub name: Seq<char>,
    pub type_ref: TypeNode,
    pub arguments: Seq<(Seq<char>, TypeNode)>,
    pub resolver: ResolverView,
}

/// The declared arguments in contracts.
pub open spec fn input_views(arguments: Seq<InputValue>) -> Seq<(Seq<char>, TypeNode)> {
    Seq::new(arguments.len(), |i: int| (arguments[i].name@, arguments[i].type_ref@))
}

impl View for Field {
    type V = OperationView;

    open spec fn view(&self) -> OperationView {
        OperationView {
            name: self.name@,
            type_ref: self.type_ref@,
            arguments: input_views(self.arguments@),
            resolver: self.resolver@,
        }
    }
}

/// The point lookup of an entity: named by the lowercase-with-underscores
/// form of the type name, returning the nullable entity type, with the
/// primary key as its one argument, a non-null `ID`.
pub open spec fn get_operation(entity: EntityView, columns: Seq<Seq<char>>) -> OperationView {
    OperationView {
        name: snake_case(entity.graphql_name),
        type_ref: named(entity.graphql_name),
        arguments: seq![(entity.primary_key, named_nn(ID@))],
        resolver: ResolverView::Get {
            table: entity.table,
            primary_key: entity.primary_key,
            columns,
        },
    }
}

/// The listing of an entity: named `list_` and the lowercase-with-underscores
/// form of the type name, returning a non-null list of non-null entities,
/// with the optional integers `limit` and `offset` as arguments.
pub open spec fn list_operation(entity: EntityView, columns: Seq<Seq<char>>) -> OperationView {
    OperationView {
        name: "list_"@ + snake_case(entity.graphql_name),
        type_ref: named_nn_list_nn(entity.graphql_name),
        arguments: seq![(LIMIT@, named(INT@)), (OFFSET@, named(INT@))],
        resolver: ResolverView::List { table: entity.table, columns },
    }
}

/// Makes the point lookup of `entity`, which selects `columns`.
pub fn create_get_resolver(entity: &EntityConfig, columns: &Vec<String>) -> (field: Field)
    ensures
        field@ == get_operation(entity@, texts(columns@)),
{
    let mut arguments: Vec<InputValue> = Vec::new();
    arguments.push(
        InputValue { name: entity.primary_key.clone(), type_ref: TypeRef::named_nn(ID) },
    );
    let field = Field {
        name: to_snake_case(entity.graphql_name.as_str()),
        type_ref: TypeRef::named(entity.graphql_name.as_str()),
        arguments,
        resolver: Resolver::Get {
            table: entity.table.clone(),
            primary_key: entity.primary_key.clone(),
            columns: duplicate_texts(columns),
        },
    };
    assert(input_views(field.arguments@) =~= seq![(entity@.primary_key, named_nn(ID@))]);
    field
}

/// Makes the listing of `entity`, which selects `columns`.
pub fn create_list_resolver(entity: &EntityConfig, columns: &Vec<String>) -> (field: Field)
    ensures
        field@ == list_operation(entity@, texts(columns@)),
{
    let mut arguments: Vec<InputValue> = Vec::new();
    arguments.push(InputValue { name: LIMIT.to_owned(), type_ref: TypeRef::named(INT) });
    arguments.push(InputValue { name: OFFSET.to_owned(), type_ref: TypeRef::named(INT) });
    let snake = to_snake_case(entity.graphql_name.as_str());
    let field = Field {
        name: concat2("list_", snake.as_str()),
        type_ref: TypeRef::named_nn_list_nn(entity.graphql_name.as_str()),
        arguments,
        resolver: Resolver::List {
            table: entity.table.clone(),
            columns: duplicate_texts(columns),
        },
    };
    assert(input_views(field.arguments@) =~= seq![(LIMIT@, named(INT@)), (OFFSET@, named(INT@))]);
    field
}

/// A failure of kind `Argument` with the given message.
pub open spec fn argument_error(message: Seq<char>) -> ErrorView {
    ErrorView { kind: ErrorKind::Argument, message }
}

/// The query of a point lookup: the rows whose primary key equals the
/// argument called like the primary key, which has to be a text. A missing
/// argument and an argument that is no text are failures.
pub open spec fn lookup_plan(
    table: Seq<char>,
    primary_key: Seq<char>,
    columns: Seq<Seq<char>>,
    args: Arguments,
) -> Result<QueryView, ErrorView> {
    match given(args, primary_key) {
        None => Err(argument_error("Primary key '"@ + primary_key + "' argument missing"@)),
        Some(InputView::Value(ValueView::String(s))) => Ok(
            QueryView::Lookup { table, columns, key_column: primary_key, key: s },
        ),
        Some(_) => Err(argument_error("Primary key must be a string"@)),
    }
}

/// An optional integer argument: the default where the argument is missing
/// or null, the number where it is an integer, a failure otherwise.
pub open spec fn optional_integer(args: Arguments, name: Seq<char>, default: int) -> Result<
    int,
    ErrorView,
> {
    match given(args, name) {
        None => Ok(default),
        Some(InputView::Value(ValueView::Null)) => Ok(default),
        Some(InputView::Value(ValueView::Integer(i))) => Ok(i),
        Some(_) => Err(argument_error("Argument '"@ + name + "' must be an integer"@)),
    }
}

/// The limit that a listing asks for: the one given, but at most 1000.
pub open spec fn clamp_limit(limit: int) -> int {
    if limit > MAX_LIMIT {
        MAX_LIMIT as int
    } else {
        limit
    }
}

/// The query of a listing: `limit` rows, 100 by default and at most 1000,
/// after `offset` rows, 0 by default.
pub open spec fn page_plan(table: Seq<char>, columns: Seq<Seq<char>>, args: Arguments) -> Result<
    QueryView,
    ErrorView,
> {
    match optional_integer(args, LIMIT@, DEFAULT_LIMIT as int) {
        Err(e) => Err(e),
        Ok(limit) => match optional_integer(args, OFFSET@, 0) {
            Err(e) => Err(e),
            Ok(offset) => Ok(
                QueryView::Page { table, columns, limit: clamp_limit(limit), offset },
            ),
        },
    }
}

/// The query that a resolver plans from the arguments of a request; a field
/// that reads the row above it plans none.
pub open spec fn plan(resolver: ResolverView, args: Arguments) -> Result<
    Option<QueryView>,
    ErrorView,
> {
    match resolver {
        ResolverView::Property => Ok(None),
        ResolverView::Get { table, primary_key, columns } => match lookup_plan(
            table,
            primary_key,
            columns,
            args,
        ) {
            Ok(q) => Ok(Some(q)),
            Err(e) => Err(e),
        },
        ResolverView::List { table, columns } => match page_plan(table, columns, args) {
            Ok(q) => Ok(Some(q)),
            Err(e) => Err(e),
        },
    }
}

/// What the request gives for the argument called `name`: the first
/// argument of that name counts.
pub fn find_argument<'a>(args: &'a Vec<Argument>, name: &str) -> (r: Option<&'a Input>)
    ensures
        match r {
            Some(v) => given(argument_views(args@), name@) == Some(v@),
            None => given(argument_views(args@), name@) is None,
        },
{
    let ghost view = argument_views(args@);
    let mut i: usize = 0;
    while i < args.len()
        invariant
            i <= args.len(),
            view == argument_views(args@),
            find_given(view, name@, i as nat) is None,
        decreases args.len() - i,
    {
        proof {
            assert(view[i as int] == (args@[i as int].name@, args@[i as int].value@));
        }
        if same_text(args[i].name.as_str(), name) {
            proof {
                lemma_given_stays(view, name@, (i + 1) as nat, view.len());
            }
            return Some(&args[i].value);
        }
        i = i + 1;
    }
    None
}

/// The result of planning in contracts.
pub open spec fn query_result(r: Result<Query, NouninatorError>) -> Result<QueryView, ErrorView> {
    match r {
        Ok(q) => Ok(q@),
        Err(e) => Err(e@),
    }
}

/// Plans the query of a point lookup from the arguments of a request.
pub fn plan_lookup(table: &str, primary_key: &str, columns: &Vec<String>, args: &Vec<Argument>) -> (r:
    Result<Query, NouninatorError>)
    ensures
        query_result(r) == lookup_plan(table@, primary_key@, texts(columns@), argument_views(args@)),
{
    match find_argument(args, primary_key) {
        None => Err(
            NouninatorError::Argument(concat3("Primary key '", primary_key, "' argument missing")),
        ),
        Some(Input::Value(Value::String(s))) => Ok(
            Query::Lookup {
                table: table.to_owned(),
                columns: duplicate_texts(columns),
                key_column: primary_key.to_owned(),
                key: s.clone(),
            },
        ),
        Some(_) => Err(NouninatorError::Argument("Primary key must be a string".to_owned())),
    }
}

fn read_optional_integer(args: &Vec<Argument>, name: &str, default: i64) -> (r: Result<
    i64,
    NouninatorError,
>)
    ensures
        match r {
            Ok(i) => optional_integer(argument_views(args@), name@, default as int) == Ok::<
                int,
                ErrorView,
            >(i as int),
            Err(e) => optional_integer(argument_views(args@), name@, default as int) == Err::<
                int,
                ErrorView,
            >(e@),
        },
{
    match find_argument(args, name) {
        None => Ok(default),
        Some(Input::Value(Value::Null)) => Ok(default),
        Some(Input::Value(Value::Integer(i))) => Ok(*i),
        Some(_) => Err(
            NouninatorError::Argument(concat3("Argument '", name, "' must be an integer")),
        ),
    }
}

/// Plans the query of a listing from the arguments of a request.
pub fn plan_page(table: &str, columns: &Vec<String>, args: &Vec<Argument>) -> (r: Result<
    Query,
    NouninatorError,
>)
    ensures
        query_result(r) == page_plan(table@, texts(columns@), argument_views(args@)),
{
    let limit = match read_optional_integer(args, LIMIT, DEFAULT_LIMIT) {
        Ok(limit) => limit,
        Err(e) => {
            return Err(e);
        },
    };
    let offset = match read_optional_integer(args, OFFSET, 0) {
        Ok(offset) => offset,
        Err(e) => {
            return Err(e);
        },
    };
    let limit = if limit > MAX_LIMIT {
        MAX_LIMIT
    } else {
        limit
    };
    Ok(Query::Page { table: table.to_owned(), columns: duplicate_texts(columns), limit, offset })
}

impl Resolver {
    /// Plans the query that answers a request with the given arguments.
    /// A missing or mistyped argument fails before any query is made.
    pub fn plan(&self, args: &Vec<Argument>) -> (r: Result<Option<Query>, NouninatorError>)
        ensures
            match r {
                Ok(Some(q)) => plan(self@, argument_views(args@)) == Ok::<
                    Option<QueryView>,
                    ErrorView,
                >(Some(q@)),
                Ok(None) => plan(self@, argument_views(args@)) == Ok::<Option<QueryView>, ErrorView>(
                    None,
                ),
                Err(e) => plan(self@, argument_views(args@)) == Err::<Option<QueryView>, ErrorView>(
                    e@,
                ),
            },
    {
        match self {
            Resolver::Property => Ok(None),
            Resolver::Get { table, primary_key, columns } => {
                match plan_lookup(table.as_str(), primary_key.as_str(), columns, args) {
                    Ok(q) => Ok(Some(q)),
                    Err(e) => Err(e),
                }
            },
            Resolver::List { table, columns } => {
                match plan_page(table.as_str(), columns, args) {
                    Ok(q) => Ok(Some(q)),
                    Err(e) => Err(e),
                }
            },
        }
    }
}

impl Clone for Resolver {
    /// A copy of this resolver.
    fn clone(&self) -> (r: Resolver)
        ensures
            r@ == self@,
    {
        match self {
            Resolver::Property => Resolver::Property,
            Resolver::Get { table, primary_key, columns } => Resolver::Get {
                table: table.clone(),
                primary_key: primary_key.clone(),
                columns: duplicate_texts(columns),
            },
            Resolver::List { table, columns } => Resolver::List {
                table: table.clone(),
                columns: duplicate_texts(columns),
            },
        }
    }
}

/// A listing never asks for more than 1000 rows. Where the request gives the
/// limit `n`, the listing asks for `n` rows, and for 1000 where `n` is more:
/// for none where the request asks for none. Where the request gives no
/// limit, the listing asks for 100.
pub proof fn lemma_page_limit(table: Seq<char>, columns: Seq<Seq<char>>, args: Arguments, n: int)
    requires
        page_plan(table, columns, args) is Ok,
    ensures
        page_plan(table, columns, args)->Ok_0 is Page,
        page_plan(table, columns, args)->Ok_0->Page_limit <= 1000,
        given(args, LIMIT@) == Some(InputView::Value(ValueView::Integer(n))) ==> page_plan(
            table,
            columns,
            args,
        )->Ok_0->Page_limit == if n > 1000 {
            1000
        } else {
            n
        },
        given(args, LIMIT@) is None || given(args, LIMIT@) == Some(
            InputView::Value(ValueView::Null),
        )
            ==> page_plan(table, columns, args)->Ok_0->Page_limit == 100,
{
}

/// Why the data engine did not hand back rows.
#[derive(Debug)]
pub enum EngineFailure {
    /// The engine refused or failed to run the query.
    Execution(String),
    /// The engine failed while the rows were retrieved.
    Collection(String),
}

/// The failure that a resolver reports for a failure of the data engine.
pub open spec fn engine_error(failure: EngineFailure) -> ErrorView {
    match failure {
        EngineFailure::Execution(m) => ErrorView {
            kind: ErrorKind::Engine,
            message: "Query execution failed: "@ + m@,
        },
        EngineFailure::Collection(m) => ErrorView {
            kind: ErrorKind::Engine,
            message: "Data collection failed: "@ + m@,
        },
    }
}

/// Turns a failure of the data engine into the failure of the field.
pub fn engine_failure(failure: &EngineFailure) -> (e: NouninatorError)
    ensures
        e@ == engine_error(*failure),
{
    match failure {
        EngineFailure::Execution(m) => NouninatorError::Engine(
            concat2("Query execution failed: ", m.as_str()),
        ),
        EngineFailure::Collection(m) => NouninatorError::Engine(
            concat2("Data collection failed: ", m.as_str()),
        ),
    }
}

/// The batches of a result in contracts.
pub open spec fn batch_views(batches: Seq<RecordBatch>) -> Seq<BatchView> {
    Seq::new(batches.len(), |i: int| batches[i]@)
}

/// The row objects of a result in contracts.
pub open spec fn row_views(rows: Seq<RowObject>) -> Seq<Entries> {
    Seq::new(rows.len(), |i: int| rows[i]@)
}

/// The number of rows in the first `n` batches.
pub open spec fn total_rows(batches: Seq<BatchView>, n: nat) -> nat
    decreases n,
{
    if n == 0 {
        0
    } else {
        total_rows(batches, (n - 1) as nat) + batches[n - 1].num_rows()
    }
}

/// The first of the first `n` batches that has a row, if there is one.
pub open spec fn first_nonempty(batches: Seq<BatchView>, n: nat) -> Option<int>
    decreases n,
{
    if n == 0 {
        None
    } else {
        match first_nonempty(batches, (n - 1) as nat) {
            Some(b) => Some(b),
            None => if batches[n - 1].num_rows() > 0 {
                Some(n - 1)
            } else {
                None
            },
        }
    }
}

/// What a point lookup makes of the batches that came back: nothing where
/// they hold no row, else the row object of the first row in scan order, or
/// the failure to show that row.
pub open spec fn lookup_rows(batches: Seq<BatchView>) -> Result<Option<Entries>, ErrorView> {
    match first_nonempty(batches, batches.len()) {
        None => Ok(None),
        Some(b) => match marshal_row(batches[b], 0) {
            Ok(entries) => Ok(Some(entries)),
            Err(e) => Err(e),
        },
    }
}

/// The row objects of the first `n` rows of a batch, or the failure of the
/// first row that cannot be shown.
pub open spec fn marshal_rows(batch: BatchView, n: nat) -> Result<Seq<Entries>, ErrorView>
    decreases n,
{
    if n == 0 {
        Ok(Seq::empty())
    } else {
        match marshal_rows(batch, (n - 1) as nat) {
            Err(e) => Err(e),
            Ok(rows) => match marshal_row(batch, n - 1) {
                Err(e) => Err(e),
                Ok(row) => Ok(rows.push(row)),
            },
        }
    }
}

/// What a listing makes of the first `n` batches that came back: the row
/// object of every row, in scan order, or the failure of the first row that
/// cannot be shown.
pub open spec fn page_rows(batches: Seq<BatchView>, n: nat) -> Result<Seq<Entries>, ErrorView>
    decreases n,
{
    if n == 0 {
        Ok(Seq::empty())
    } else {
        match page_rows(batches, (n - 1) as nat) {
            Err(e) => Err(e),
            Ok(rows) => match marshal_rows(batches[n - 1], batches[n - 1].num_rows()) {
                Err(e) => Err(e),
                Ok(more) => Ok(rows + more),
            },
        }
    }
}

/// Once the first `k` rows of a batch have failed, so have the first `n`.
pub proof fn lemma_rows_failure_stays(batch: BatchView, k: nat, n: nat)
    requires
        k <= n,
        marshal_rows(batch, k) is Err,
    ensures
        marshal_rows(batch, n) == marshal_rows(batch, k),
    decreases n - k,
{
    if k < n {
        lemma_rows_failure_stays(batch, k, (n - 1) as nat);
    }
}

/// Once the first `k` batches have failed, so have the first `n`.
pub proof fn lemma_page_failure_stays(batches: Seq<BatchView>, k: nat, n: nat)
    requires
        k <= n,
        page_rows(batches, k) is Err,
    ensures
        page_rows(batches, n) == page_rows(batches, k),
    decreases n - k,
{
    if k < n {
        lemma_page_failure_stays(batches, k, (n - 1) as nat);
    }
}

/// Once one of the first `k` batches has a row, it is the first of the first
/// `n` that has one.
pub proof fn lemma_first_nonempty_stays(batches: Seq<BatchView>, k: nat, n: nat)
    requires
        k <= n,
        first_nonempty(batches, k) is Some,
    ensures
        first_nonempty(batches, n) == first_nonempty(batches, k),
    decreases n - k,
{
    if k < n {
        lemma_first_nonempty_stays(batches, k, (n - 1) as nat);
    }
}

/// The result of a point lookup in contracts.
pub open spec fn found_result(r: Result<Option<RowObject>, NouninatorError>) -> Result<
    Option<Entries>,
    ErrorView,
> {
    match r {
        Ok(Some(row)) => Ok(Some(row@)),
        Ok(None) => Ok(None),
        Err(e) => Err(e@),
    }
}

/// The result of a listing in contracts.
pub open spec fn listed_result(r: Result<Vec<RowObject>, NouninatorError>) -> Result<
    Seq<Entries>,
    ErrorView,
> {
    match r {
        Ok(rows) => Ok(row_views(rows@)),
        Err(e) => Err(e@),
    }
}

/// The row object of the first row of the batches, or nothing where they
/// hold no row.
pub fn first_row(batches: &Vec<RecordBatch>) -> (r: Result<Option<RowObject>, NouninatorError>)
    ensures
        found_result(r) == lookup_rows(batch_views(batches@)),
{
    let ghost views = batch_views(batches@);
    let mut b: usize = 0;
    while b < batches.len()
        invariant
            b <= batches.len(),
            views == batch_views(batches@),
            first_nonempty(views, b as nat) is None,
        decreases batches.len() - b,
    {
        if batches[b].num_rows() > 0 {
            proof {
                assert(views[b as int] == batches@[b as int]@);
                assert(first_nonempty(views, (b + 1) as nat) == Some(b as int));
                lemma_first_nonempty_stays(views, (b + 1) as nat, batches@.len());
            }
            return match record_batch_to_graphql_value(&batches[b], 0) {
                Ok(row) => Ok(Some(row)),
                Err(e) => Err(e),
            };
        }
        proof {
            assert(views[b as int] == batches@[b as int]@);
        }
        b = b + 1;
    }
    Ok(None)
}

/// The row objects of all rows of the batches, in scan order.
pub fn all_rows(batches: &Vec<RecordBatch>) -> (r: Result<Vec<RowObject>, NouninatorError>)
    ensures
        listed_result(r) == page_rows(batch_views(batches@), batches@.len()),
{
    let ghost views = batch_views(batches@);
    let mut results: Vec<RowObject> = Vec::new();
    proof {
        assert(row_views(results@) =~= Seq::<Entries>::empty());
    }
    let mut b: usize = 0;
    while b < batches.len()
        invariant
            b <= batches.len(),
            views == batch_views(batches@),
            page_rows(views, b as nat) == Ok::<Seq<Entries>, ErrorView>(row_views(results@)),
        decreases batches.len() - b,
    {
        let batch = &batches[b];
        let rows = batch.num_rows();
        let ghost before = row_views(results@);
        let ghost mut inner: Seq<Entries> = Seq::empty();
        proof {
            assert(views[b as int] == batch@);
            assert(before + inner == before);
        }
        let mut row_idx: usize = 0;
        while row_idx < rows
            invariant
                row_idx <= rows,
                rows == batch@.num_rows(),
                b < batches.len(),
                views == batch_views(batches@),
                views[b as int] == batch@,
                page_rows(views, b as nat) == Ok::<Seq<Entries>, ErrorView>(before),
                marshal_rows(batch@, row_idx as nat) == Ok::<Seq<Entries>, ErrorView>(inner),
                row_views(results@) == before + inner,
            decreases rows - row_idx,
        {
            match record_batch_to_graphql_value(batch, row_idx) {
                Ok(row) => {
                    let ghost previous = results@;
                    proof {
                        inner = inner.push(row@);
                    }
                    results.push(row);
                    proof {
                        assert(row_views(results@) =~= row_views(previous).push(row@));
                        assert(row_views(previous).push(row@) =~= before + inner);
                    }
                },
                Err(e) => {
                    proof {
                        lemma_rows_failure_stays(batch@, (row_idx + 1) as nat, rows as nat);
                        lemma_page_failure_stays(views, (b + 1) as nat, batches@.len());
                    }
                    return Err(e);
                },
            }
            row_idx = row_idx + 1;
        }
        b = b + 1;
    }
    Ok(results)
}

/// Completes a point lookup with what the data engine reported: the failure
/// of the engine as a failure of the field, no row as nothing, else the first
/// row as a row object.
pub fn complete_lookup(outcome: Result<Vec<RecordBatch>, EngineFailure>) -> (r: Result<
    Option<RowObject>,
    NouninatorError,
>)
    ensures
        found_result(r) == match outcome {
            Ok(batches) => lookup_rows(batch_views(batches@)),
            Err(failure) => Err(engine_error(failure)),
        },
{
    match outcome {
        Ok(batches) => first_row(&batches),
        Err(failure) => Err(engine_failure(&failure)),
    }
}

/// Completes a listing with what the data engine reported: the failure of
/// the engine as a failure of the field, else every row as a row object, in
/// scan order.
pub fn complete_page(outcome: Result<Vec<RecordBatch>, EngineFailure>) -> (r: Result<
    Vec<RowObject>,
    NouninatorError,
>)
    ensures
        listed_result(r) == match outcome {
            Ok(batches) => page_rows(batch_views(batches@), batches@.len()),
            Err(failure) => Err(engine_error(failure)),
        },
{
    match outcome {
        Ok(batches) => all_rows(&batches),
        Err(failure) => Err(engine_failure(&failure)),
    }
}

/// What an operation resolves to: one row or nothing for a point lookup, a
/// list of rows for a listing.
#[derive(Debug, PartialEq, Eq)]
pub enum Resolved {
    Row(Option<RowObject>),
    Rows(Vec<RowObject>),
}

/// What an operation resolves to, in contracts.
pub enum ResolvedView {
    Row(Option<Entries>),
    Rows(Seq<Entries>),
}

impl View for Resolved {
    type V = ResolvedView;

    open spec fn view(&self) -> ResolvedView {
        match self {
            Resolved::Row(Some(row)) => ResolvedView::Row(Some(row@)),
            Resolved::Row(None) => ResolvedView::Row(None),
            Resolved::Rows(rows) => ResolvedView::Rows(row_views(rows@)),
        }
    }
}

/// What the operation that planned `query` makes of what the data engine
/// reported: a failure of the engine is the failure of the field; the rows
/// of a lookup give the first row or nothing, those of a page give every
/// row in scan order.
pub open spec fn resolution(
    query: QueryView,
    outcome: Result<Seq<BatchView>, EngineFailure>,
) -> Result<ResolvedView, ErrorView> {
    match outcome {
        Err(failure) => Err(engine_error(failure)),
        Ok(batches) => match query {
            QueryView::Lookup { .. } => match lookup_rows(batches) {
                Ok(row) => Ok(ResolvedView::Row(row)),
                Err(e) => Err(e),
            },
            QueryView::Page { .. } => match page_rows(batches, batches.len()) {
                Ok(rows) => Ok(ResolvedView::Rows(rows)),
                Err(e) => Err(e),
            },
        },
    }
}

/// What the data engine reported, in contracts.
pub open spec fn outcome_view(outcome: Result<Vec<RecordBatch>, EngineFailure>) -> Result<
    Seq<BatchView>,
    EngineFailure,
> {
    match outcome {
        Ok(batches) => Ok(batch_views(batches@)),
        Err(failure) => Err(failure),
    }
}

/// Completes the operation that planned `query` with what the data engine
/// reported for it.
pub fn complete(query: &Query, outcome: Result<Vec<RecordBatch>, EngineFailure>) -> (r: Result<
    Resolved,
    NouninatorError,
>)
    ensures
        match r {
            Ok(resolved) => resolution(query@, outcome_view(outcome)) == Ok::<
                ResolvedView,
                ErrorView,
            >(resolved@),
            Err(e) => resolution(query@, outcome_view(outcome)) == Err::<ResolvedView, ErrorView>(
                e@,
            ),
        },
{
    match query {
        Query::Lookup { .. } => match complete_lookup(outcome) {
            Ok(row) => Ok(Resolved::Row(row)),
            Err(e) => Err(e),
        },
        Query::Page { .. } => match complete_page(outcome) {
            Ok(rows) => Ok(Resolved::Rows(rows)),
            Err(e) => Err(e),
        },
    }
}

/// The value of a field that reads the row object above it: what the row
/// holds under the field's name, `Null` where it holds nothing.
pub open spec fn property_value(parent: Entries, name: Seq<char>) -> ValueView {
    match lookup(parent, name) {
        Some(v) => v,
        None => ValueView::Null,
    }
}

/// Resolves a field of an entity from the row object of the entity, without
/// any query.
pub fn resolve_property(parent: &RowObject, name: &str) -> (v: Value)
    ensures
        v@ == property_value(parent@, name@),
{
    match parent.get(name) {
        Some(v) => v.clone(),
        None => Value::Null,
    }
}

/// Where none of the first `n` batches has a row, they hold no rows in all,
/// and the other way round.
pub proof fn lemma_no_rows(batches: Seq<BatchView>, n: nat)
    ensures
        first_nonempty(batches, n) is None <==> total_rows(batches, n) == 0,
        first_nonempty(batches, n) matches Some(b) ==> 0 <= b < n && batches[b].num_rows() > 0,
    decreases n,
{
    if n > 0 {
        lemma_no_rows(batches, (n - 1) as nat);
    }
}

/// A point lookup that matches no row gives nothing, without a failure; one
/// that matches exactly one row gives that row marshalled.
pub proof fn lemma_point_lookup(batches: Seq<BatchView>)
    ensures
        total_rows(batches, batches.len()) == 0 ==> lookup_rows(batches) == Ok::<
            Option<Entries>,
            ErrorView,
        >(None),
        total_rows(batches, batches.len()) == 1 ==> exists|b: int|
            0 <= b < batches.len() && (#[trigger] batches[b]).num_rows() == 1 && lookup_rows(batches)
                == match marshal_row(batches[b], 0) {
                Ok(entries) => Ok::<Option<Entries>, ErrorView>(Some(entries)),
                Err(e) => Err(e),
            },
{
    lemma_no_rows(batches, batches.len());
    if total_rows(batches, batches.len()) == 1 {
        let b = first_nonempty(batches, batches.len())->Some_0;
        lemma_rows_bound(batches, batches.len(), b);
        assert(batches[b].num_rows() == 1);
    }
}

/// Each of the first `n` batches holds at most as many rows as all of them.
pub proof fn lemma_rows_bound(batches: Seq<BatchView>, n: nat, b: int)
    requires
        0 <= b < n,
    ensures
        batches[b].num_rows() <= total_rows(batches, n),
    decreases n,
{
    if b < n - 1 {
        lemma_rows_bound(batches, (n - 1) as nat, b);
    }
}

/// A listing gives one row object for each row that came back, so none where
/// no row came back: an empty list, not a failure.
pub proof fn lemma_page_length(batches: Seq<BatchView>, n: nat)
    ensures
        page_rows(batches, n) matches Ok(rows) ==> rows.len() == total_rows(batches, n),
        total_rows(batches, n) == 0 ==> page_rows(batches, n) == Ok::<Seq<Entries>, ErrorView>(
            Seq::empty(),
        ),
    decreases n,
{
    if n > 0 {
        lemma_page_length(batches, (n - 1) as nat);
        lemma_rows_length(batches[n - 1], batches[n - 1].num_rows());
        if total_rows(batches, n) == 0 {
            assert(Seq::<Entries>::empty() + Seq::<Entries>::empty() == Seq::<Entries>::empty());
        }
    }
}

/// The first `n` rows of a batch give `n` row objects.
pub proof fn lemma_rows_length(batch: BatchView, n: nat)
    ensures
        marshal_rows(batch, n) matches Ok(rows) ==> rows.len() == n,
    decreases n,
{
    if n > 0 {
        lemma_rows_length(batch, (n - 1) as nat);
    }
}

} // verus!
