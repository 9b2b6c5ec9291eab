//! The type mapper: from a column's name, semantic type and nullability to
//! the API type of the field that exposes it.

use vstd::prelude::*;
use crate::schema::column::{field_views, DataType, FieldDescriptor, FieldView};
use crate::text::{char_is_uppercase, chars_of, has_suffix, matches_at, texts};

verus! {

/// The name of the identifier scalar.
pub const ID: &'static str = "ID";

/// The name of the integer scalar.
pub const INT: &'static str = "Int";

/// The name of the floating-point scalar.
pub const FLOAT: &'static str = "Float";

/// The name of the text scalar.
pub const STRING: &'static str = "String";

/// The name of the boolean scalar.
pub const BOOLEAN: &'static str = "Boolean";

/// The name of the calendar date scalar.
pub const DATE: &'static str = "Date";

/// The name of the instant scalar.
pub const DATE_TIME: &'static str = "DateTime";

/// An API type: a named type, or a non-null or list wrapper around a type.
#[derive(Debug, PartialEq, Eq)]
pub enum TypeRef {
    Named(String),
    NonNull(Box<TypeRef>),
    List(Box<TypeRef>),
}

/// An API type in contracts.
pub enum TypeNode {
    Named(Seq<char>),
    NonNull(Box<TypeNode>),
    List(Box<TypeNode>),
}

/// The API type that `t` stands for.
pub open spec fn type_node(t: TypeRef) -> TypeNode
    decreases t,
{
    match t {
        TypeRef::Named(n) => TypeNode::Named(n@),
        TypeRef::NonNull(inner) => TypeNode::NonNull(Box::new(type_node(*inner))),
        TypeRef::List(inner) => TypeNode::List(Box::new(type_node(*inner))),
    }
}

impl View for TypeRef {
    type V = TypeNode;

    open spec fn view(&self) -> TypeNode {
        type_node(*self)
    }
}

/// The nullable type called `name`.
pub open spec fn named(name: Seq<char>) -> TypeNode {
    TypeNode::Named(name)
}

/// The non-null type called `name`.
pub open spec fn named_nn(name: Seq<char>) -> TypeNode {
    TypeNode::NonNull(Box::new(TypeNode::Named(name)))
}

/// The non-null list of non-null values of the type called `name`.
pub open spec fn named_nn_list_nn(name: Seq<char>) -> TypeNode {
    TypeNode::NonNull(Box::new(TypeNode::List(Box::new(named_nn(name)))))
}

/// The text of a type in the schema language: the name of a named type, a
/// trailing `!` for non-null, square brackets around the item type of a list.
pub open spec fn type_text(t: TypeNode) -> Seq<char>
    decreases t,
{
    match t {
        TypeNode::Named(n) => n,
        TypeNode::NonNull(inner) => type_text(*inner) + seq!['!'],
        TypeNode::List(inner) => seq!['['] + type_text(*inner) + seq![']'],
    }
}

impl Clone for TypeRef {
    /// A copy of this type.
    fn clone(&self) -> (t: TypeRef)
        ensures
            t@ == self@,
        decreases self,
    {
        match self {
            TypeRef::Named(n) => TypeRef::Named(n.clone()),
            TypeRef::NonNull(inner) => TypeRef::NonNull(Box::new((**inner).clone())),
            TypeRef::List(inner) => TypeRef::List(Box::new((**inner).clone())),
        }
    }
}

impl TypeRef {
    /// The nullable type called `name`.
    pub fn named(name: &str) -> (t: TypeRef)
        ensures
            t@ == named(name@),
    {
        TypeRef::Named(name.to_owned())
    }

    /// The non-null type called `name`.
    pub fn named_nn(name: &str) -> (t: TypeRef)
        ensures
            t@ == named_nn(name@),
    {
        proof {
            reveal_with_fuel(type_node, 2);
        }
        TypeRef::NonNull(Box::new(TypeRef::Named(name.to_owned())))
    }

    /// The non-null list of non-null values of the type called `name`.
    pub fn named_nn_list_nn(name: &str) -> (t: TypeRef)
        ensures
            t@ == named_nn_list_nn(name@),
    {
        proof {
            reveal_with_fuel(type_node, 3);
        }
        TypeRef::NonNull(Box::new(TypeRef::List(Box::new(TypeRef::named_nn(name)))))
    }

    /// The text of this type in the schema language.
    pub fn to_string(&self) -> (s: String)
        ensures
            s@ == type_text(self@),
        decreases self,
    {
        match self {
            TypeRef::Named(n) => n.clone(),
            TypeRef::NonNull(inner) => {
                let mut s = inner.to_string();
                s.push('!');
                s
            },
            TypeRef::List(inner) => {
                let mut s = String::new();
                s.push('[');
                let body = inner.to_string();
                s.append(body.as_str());
                s.push(']');
                assert(s@ == seq!['['] + type_text(inner@) + seq![']']);
                s
            },
        }
    }
}

/// A field is identifier-like when it is called `id` or its name ends in
/// `_id`.
pub open spec fn is_identifier_name(name: Seq<char>) -> bool {
    name == "id"@ || has_suffix(name, "_id"@)
}

/// Whether the field called `name` is identifier-like.
pub fn is_identifier_field(name: &str) -> (b: bool)
    ensures
        b == is_identifier_name(name@),
{
    let v = chars_of(name);
    let id = chars_of("id");
    let suffix = chars_of("_id");
    let whole = v.len() == id.len() && matches_at(&v, 0, &id);
    proof {
        assert(v@.skip(0) == v@);
        if v.len() == id.len() {
            assert(v@.subrange(0, id.len() as int) == v@);
        }
    }
    if whole {
        return true;
    }
    if suffix.len() > v.len() {
        return false;
    }
    let at = v.len() - suffix.len();
    let b = matches_at(&v, at, &suffix);
    proof {
        assert(v@.skip(at as int).subrange(0, suffix.len() as int) == v@.subrange(
            v.len() - suffix.len(),
            v.len() as int,
        ));
    }
    b
}

/// The scalar that exposes a column, if any: `ID` or `Int` for integers,
/// `Float`, `String`, `Boolean`, `Date` for both date encodings, `DateTime`
/// for timestamps of any unit; nothing for lists, structures and unknown types.
pub open spec fn scalar_name(field_name: Seq<char>, data_type: DataType) -> Option<Seq<char>> {
    if data_type.is_integer() {
        if is_identifier_name(field_name) {
            Some(ID@)
        } else {
            Some(INT@)
        }
    } else if data_type.is_float() {
        Some(FLOAT@)
    } else if data_type.is_text() {
        Some(STRING@)
    } else if data_type is Boolean {
        Some(BOOLEAN@)
    } else if data_type.is_date() {
        Some(DATE@)
    } else if data_type is Timestamp {
        Some(DATE_TIME@)
    } else {
        None
    }
}

/// The API type of a column: its scalar, wrapped in non-null unless the
/// column is nullable; nothing where the column has no scalar.
pub open spec fn mapped_type(field_name: Seq<char>, data_type: DataType, nullable: bool) -> Option<
    TypeNode,
> {
    match scalar_name(field_name, data_type) {
        Some(scalar) => Some(
            if nullable {
                named(scalar)
            } else {
                named_nn(scalar)
            },
        ),
        None => None,
    }
}

fn scalar_for(field_name: &str, data_type: &DataType) -> (r: Option<&'static str>)
    ensures
        match r {
            Some(s) => scalar_name(field_name@, *data_type) == Some(s@),
            None => scalar_name(field_name@, *data_type) is None,
        },
{
    match data_type {
        DataType::Int8
        | DataType::Int16
        | DataType::Int32
        | DataType::Int64
        | DataType::UInt8
        | DataType::UInt16
        | DataType::UInt32
        | DataType::UInt64 => {
            if is_identifier_field(field_name) {
                Some(ID)
            } else {
                Some(INT)
            }
        },
        DataType::Float16 | DataType::Float32 | DataType::Float64 => Some(FLOAT),
        DataType::Utf8 | DataType::LargeUtf8 => Some(STRING),
        DataType::Boolean => Some(BOOLEAN),
        DataType::Date32 | DataType::Date64 => Some(DATE),
        DataType::Timestamp(_) => Some(DATE_TIME),
        DataType::List | DataType::LargeList | DataType::Struct | DataType::Other => None,
    }
}

/// Maps a column to the API type of its field, or to `None` where the column
/// is left out of the compiled type.
pub fn arrow_to_graphql_type(field_name: &str, data_type: &DataType, nullable: bool) -> (r: Option<
    TypeRef,
>)
    ensures
        match r {
            Some(t) => mapped_type(field_name@, *data_type, nullable) == Some(t@),
            None => mapped_type(field_name@, *data_type, nullable) is None,
        },
{
    match scalar_for(field_name, data_type) {
        Some(scalar) => Some(
            if nullable {
                TypeRef::named(scalar)
            } else {
                TypeRef::named_nn(scalar)
            },
        ),
        None => None,
    }
}

/// The names of those of the first `n` columns that have no API type, in
/// column order.
pub open spec fn unmapped_names(fields: Seq<FieldView>, n: nat) -> Seq<Seq<char>>
    decreases n,
{
    if n == 0 {
        Seq::empty()
    } else {
        let field = fields[n - 1];
        if mapped_type(field.name, field.data_type, field.nullable) is None {
            unmapped_names(fields, (n - 1) as nat).push(field.name)
        } else {
            unmapped_names(fields, (n - 1) as nat)
        }
    }
}

/// The names of the columns that are left out of the compiled type, for the
/// one who wants to tell of them.
pub fn omitted_columns(fields: &Vec<FieldDescriptor>) -> (names: Vec<String>)
    ensures
        texts(names@) == unmapped_names(field_views(fields@), fields@.len()),
{
    let ghost columns = field_views(fields@);
    let mut names: Vec<String> = Vec::new();
    let mut i: usize = 0;
    proof {
        assert(texts(names@) =~= Seq::<Seq<char>>::empty());
    }
    while i < fields.len()
        invariant
            i <= fields.len(),
            columns == field_views(fields@),
            texts(names@) == unmapped_names(columns, i as nat),
        decreases fields.len() - i,
    {
        let field = &fields[i];
        proof {
            assert(columns[i as int] == field@);
        }
        if arrow_to_graphql_type(field.name.as_str(), &field.data_type, field.nullable).is_none() {
            let ghost before = names@;
            names.push(field.name.clone());
            proof {
                assert(texts(names@) =~= texts(before).push(field@.name));
            }
        }
        i = i + 1;
    }
    names
}

/// Every integer column whose name is `id` or ends in `_id` is exposed as
/// `ID`, whatever its width, signedness or nullability.
pub proof fn lemma_identifier_columns_are_ids(
    field_name: Seq<char>,
    data_type: DataType,
    nullable: bool,
)
    requires
        data_type.is_integer(),
        field_name == "id"@ || has_suffix(field_name, "_id"@),
    ensures
        mapped_type(field_name, data_type, nullable) == Some(
            if nullable {
                named(ID@)
            } else {
                named_nn(ID@)
            },
        ),
{
}

/// The ASCII lowercase form of `c`: `A` to `Z` become `a` to `z`, every other
/// character stays.
pub open spec fn ascii_lowercase(c: char) -> char {
    if 'A' <= c <= 'Z' {
        ((c as u8) + 32) as char
    } else {
        c
    }
}

/// The lowercase-with-underscores form of a name: every character in ASCII
/// lowercase, with an underscore before each uppercase character but the
/// first of the name.
pub open spec fn snake_case(s: Seq<char>) -> Seq<char>
    decreases s.len(),
{
    if s.len() == 0 {
        Seq::empty()
    } else {
        let head = snake_case(s.drop_last());
        let c = s.last();
        if char_is_uppercase(c) && s.len() > 1 {
            head.push('_').push(ascii_lowercase(c))
        } else {
            head.push(ascii_lowercase(c))
        }
    }
}

fn to_ascii_lowercase(c: char) -> (r: char)
    ensures
        r == ascii_lowercase(c),
{
    if 'A' <= c && c <= 'Z' {
        ((c as u8) + 32) as char
    } else {
        c
    }
}

/// The lowercase-with-underscores form of `s`.
pub fn to_snake_case(s: &str) -> (r: String)
    ensures
        r@ == snake_case(s@),
{
    let v = chars_of(s);
    let mut result = String::new();
    let mut i: usize = 0;
    while i < v.len()
        invariant
            i <= v.len(),
            result@ == snake_case(v@.take(i as int)),
        decreases v.len() - i,
    {
        let ch = v[i];
        proof {
            assert(v@.take(i + 1).drop_last() == v@.take(i as int));
            assert(v@.take(i + 1).last() == ch);
        }
        if ch.is_uppercase() && i > 0 {
            result.push('_');
            result.push(to_ascii_lowercase(ch));
        } else {
            result.push(to_ascii_lowercase(ch));
        }
        i = i + 1;
    }
    proof {
        assert(v@.take(v.len() as int) == v@);
    }
    result
}

} // verus!
