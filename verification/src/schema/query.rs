//! The queries that the resolvers hand to the data engine, and their text.

use vstd::prelude::*;
use crate::text::{chars_of, decimal_string, decimal_text, texts, duplicate_texts};

verus! {

/// A query against one table.
#[derive(Debug)]
pub enum Query {
    /// The rows of `table` whose column `key_column` equals `key`.
    Lookup { table: String, columns: Vec<String>, key_column: String, key: String },
    /// At most `limit` rows of `table` after the first `offset`.
    Page { table: String, columns: Vec<String>, limit: i64, offset: i64 },
}

/// A query in contracts.
pub enum QueryView {
    Lookup { table: Seq<char>, columns: Seq<Seq<char>>, key_column: Seq<char>, key: Seq<char> },
    Page { table: Seq<char>, columns: Seq<Seq<char>>, limit: int, offset: int },
}

impl View for Query {
    type V = QueryView;

    open spec fn view(&self) -> QueryView {
        match self {
            Query::Lookup { table, columns, key_column, key } => QueryView::Lookup {
                table: table@,
                columns: texts(columns@),
                key_column: key_column@,
                key: key@,
            },
            Query::Page { table, columns, limit, offset } => QueryView::Page {
                table: table@,
                columns: texts(columns@),
                limit: *limit as int,
                offset: *offset as int,
            },
        }
    }
}

/// A control character: one of the C0 or C1 control codes.
pub open spec fn is_control(c: char) -> bool {
    (c as u32) <= 0x1f || 0x7f <= (c as u32) <= 0x9f
}

/// `s` with every occurrence of `quote` written twice.
pub open spec fn doubled(s: Seq<char>, quote: char) -> Seq<char>
    decreases s.len(),
{
    if s.len() == 0 {
        Seq::empty()
    } else if s.last() == quote {
        doubled(s.drop_last(), quote).push(quote).push(quote)
    } else {
        doubled(s.drop_last(), quote).push(s.last())
    }
}

/// `s` without its control characters.
pub open spec fn without_controls(s: Seq<char>) -> Seq<char>
    decreases s.len(),
{
    if s.len() == 0 {
        Seq::empty()
    } else if is_control(s.last()) {
        without_controls(s.drop_last())
    } else {
        without_controls(s.drop_last()).push(s.last())
    }
}

/// The body of the text literal for `key`: the key without its control
/// characters and with every single quote written twice.
pub open spec fn literal_body(key: Seq<char>) -> Seq<char> {
    doubled(without_controls(key), '\'')
}

/// A name as a quoted identifier: in double quotes, with every double quote
/// inside written twice.
pub open spec fn quoted_identifier(name: Seq<char>) -> Seq<char> {
    seq!['"'] + doubled(name, '"') + seq!['"']
}

/// A key as a text literal: in single quotes around its `literal_body`.
pub open spec fn quoted_literal(key: Seq<char>) -> Seq<char> {
    seq!['\''] + literal_body(key) + seq!['\'']
}

/// The select list: `*` without columns, else the quoted columns separated
/// by a comma and a blank.
pub open spec fn select_list(columns: Seq<Seq<char>>) -> Seq<char>
    decreases columns.len(),
{
    if columns.len() == 0 {
        seq!['*']
    } else if columns.len() == 1 {
        quoted_identifier(columns[0])
    } else {
        select_list(columns.drop_last()) + seq![',', ' '] + quoted_identifier(columns.last())
    }
}

/// The text of a query.
pub open spec fn query_text(q: QueryView) -> Seq<char> {
    match q {
        QueryView::Lookup { table, columns, key_column, key } => "SELECT "@ + select_list(columns)
            + " FROM "@ + quoted_identifier(table) + " WHERE "@ + quoted_identifier(key_column)
            + " = "@ + quoted_literal(key),
        QueryView::Page { table, columns, limit, offset } => "SELECT "@ + select_list(columns)
            + " FROM "@ + quoted_identifier(table) + " LIMIT "@ + decimal_text(limit)
            + " OFFSET "@ + decimal_text(offset),
    }
}

/// What a reader of quoted text takes from the text between the quotes: two
/// quotes in a row stand for one, every other character for itself; a quote
/// that is not followed by another would end the text early, so such a body
/// has no reading.
pub open spec fn read_body(body: Seq<char>, quote: char) -> Option<Seq<char>>
    decreases body.len(),
{
    if body.len() == 0 {
        Some(Seq::empty())
    } else if body[0] == quote {
        if body.len() >= 2 && body[1] == quote {
            match read_body(body.skip(2), quote) {
                Some(rest) => Some(seq![quote] + rest),
                None => None,
            }
        } else {
            None
        }
    } else {
        match read_body(body.skip(1), quote) {
            Some(rest) => Some(seq![body[0]] + rest),
            None => None,
        }
    }
}

/// Reading two bodies in a row, where the first has a reading, gives the two
/// readings in a row.
pub proof fn lemma_read_body_concat(a: Seq<char>, b: Seq<char>, quote: char)
    requires
        read_body(a, quote) is Some,
    ensures
        read_body(a + b, quote) == match read_body(b, quote) {
            Some(rb) => Some(read_body(a, quote)->Some_0 + rb),
            None => None,
        },
    decreases a.len(),
{
    if a.len() == 0 {
        assert(a + b == b);
        assert(read_body(a, quote)->Some_0 + read_body(b, quote)->Some_0 == read_body(
            b,
            quote,
        )->Some_0);
    } else if a[0] == quote {
        assert((a + b).skip(2) == a.skip(2) + b);
        lemma_read_body_concat(a.skip(2), b, quote);
        match read_body(b, quote) {
            Some(rb) => {
                assert(seq![quote] + (read_body(a.skip(2), quote)->Some_0 + rb) == (seq![quote]
                    + read_body(a.skip(2), quote)->Some_0) + rb);
            },
            None => {},
        }
    } else {
        assert((a + b).skip(1) == a.skip(1) + b);
        lemma_read_body_concat(a.skip(1), b, quote);
        match read_body(b, quote) {
            Some(rb) => {
                assert(seq![a[0]] + (read_body(a.skip(1), quote)->Some_0 + rb) == (seq![a[0]]
                    + read_body(a.skip(1), quote)->Some_0) + rb);
            },
            None => {},
        }
    }
}

/// Writing every quote twice is undone by reading.
pub proof fn lemma_read_doubled(s: Seq<char>, quote: char)
    ensures
        read_body(doubled(s, quote), quote) == Some(s),
    decreases s.len(),
{
    if s.len() > 0 {
        let front = s.drop_last();
        lemma_read_doubled(front, quote);
        let piece = if s.last() == quote {
            seq![quote, quote]
        } else {
            seq![s.last()]
        };
        assert(doubled(s, quote) == doubled(front, quote) + piece);
        assert(read_body(piece, quote) == Some(seq![s.last()])) by {
            reveal_with_fuel(read_body, 3);
            if s.last() == quote {
                assert(piece.skip(2) == Seq::<char>::empty());
                assert(seq![quote] + Seq::<char>::empty() == seq![quote]);
            } else {
                assert(piece.skip(1) == Seq::<char>::empty());
                assert(seq![s.last()] + Seq::<char>::empty() == seq![s.last()]);
            }
        }
        lemma_read_body_concat(doubled(front, quote), piece, quote);
        assert(front + seq![s.last()] == s);
    }
}

/// What is left of a key holds no control character.
pub proof fn lemma_without_controls(s: Seq<char>)
    ensures
        forall|i: int| 0 <= i < without_controls(s).len() ==> !is_control(
            #[trigger] without_controls(s)[i],
        ),
        (forall|i: int| 0 <= i < s.len() ==> !is_control(#[trigger] s[i])) ==> without_controls(s)
            == s,
    decreases s.len(),
{
    if s.len() > 0 {
        lemma_without_controls(s.drop_last());
        let front = without_controls(s.drop_last());
        assert forall|i: int| 0 <= i < without_controls(s).len() implies !is_control(
            #[trigger] without_controls(s)[i],
        ) by {
            if i < front.len() {
                assert(without_controls(s)[i] == front[i]);
            }
        }
        if forall|i: int| 0 <= i < s.len() ==> !is_control(#[trigger] s[i]) {
            assert forall|i: int| 0 <= i < s.drop_last().len() implies !is_control(
                #[trigger] s.drop_last()[i],
            ) by {
                assert(s.drop_last()[i] == s[i]);
            }
            assert(!is_control(s[s.len() - 1]));
            assert(s.drop_last().push(s.last()) == s);
        }
    }
}

/// No key can break out of its literal: a reader of text literals takes the
/// whole body and finds in it the key without its control characters; and a
/// key without control characters is found as it is.
pub proof fn lemma_literal_is_inert(key: Seq<char>)
    ensures
        read_body(literal_body(key), '\'') == Some(without_controls(key)),
        (forall|i: int| 0 <= i < key.len() ==> !is_control(#[trigger] key[i])) ==> read_body(
            literal_body(key),
            '\'',
        ) == Some(key),
{
    lemma_read_doubled(without_controls(key), '\'');
    lemma_without_controls(key);
}

/// No name can break out of its quoted identifier: a reader of quoted
/// identifiers takes the whole text between the quotes and finds the name
/// in it.
pub proof fn lemma_identifier_is_inert(name: Seq<char>)
    ensures
        read_body(doubled(name, '"'), '"') == Some(name),
{
    lemma_read_doubled(name, '"');
}

fn push_doubled(out: &mut String, s: &str, quote: char)
    ensures
        final(out)@ == old(out)@ + doubled(s@, quote),
{
    let v = chars_of(s);
    let mut i: usize = 0;
    while i < v.len()
        invariant
            i <= v.len(),
            v@ == s@,
            out@ == old(out)@ + doubled(v@.take(i as int), quote),
        decreases v.len() - i,
    {
        proof {
            assert(v@.take(i + 1).drop_last() == v@.take(i as int));
        }
        let ghost before = out@;
        if v[i] == quote {
            out.push(quote);
            out.push(quote);
            assert(out@ == old(out)@ + doubled(v@.take(i as int), quote).push(quote).push(quote));
        } else {
            out.push(v[i]);
            assert(out@ == old(out)@ + doubled(v@.take(i as int), quote).push(v@[i as int]));
        }
        i = i + 1;
    }
    proof {
        assert(v@.take(v.len() as int) == v@);
    }
}

/// Whether `c` is a control character.
pub fn is_control_char(c: char) -> (b: bool)
    ensures
        b == is_control(c),
{
    let code: u32 = c as u32;
    code <= 0x1f || (0x7f <= code && code <= 0x9f)
}

/// `s` without its control characters.
pub fn strip_controls(s: &str) -> (r: String)
    ensures
        r@ == without_controls(s@),
{
    let v = chars_of(s);
    let mut r = String::new();
    let mut i: usize = 0;
    while i < v.len()
        invariant
            i <= v.len(),
            v@ == s@,
            r@ == without_controls(v@.take(i as int)),
        decreases v.len() - i,
    {
        proof {
            assert(v@.take(i + 1).drop_last() == v@.take(i as int));
        }
        if !is_control_char(v[i]) {
            r.push(v[i]);
        }
        i = i + 1;
    }
    proof {
        assert(v@.take(v.len() as int) == v@);
    }
    r
}

fn push_identifier(out: &mut String, name: &str)
    ensures
        final(out)@ == old(out)@ + quoted_identifier(name@),
{
    out.push('"');
    push_doubled(out, name, '"');
    out.push('"');
    assert(out@ == old(out)@ + (seq!['"'] + doubled(name@, '"') + seq!['"']));
}

fn push_literal(out: &mut String, key: &str)
    ensures
        final(out)@ == old(out)@ + quoted_literal(key@),
{
    let kept = strip_controls(key);
    out.push('\'');
    push_doubled(out, kept.as_str(), '\'');
    out.push('\'');
    assert(out@ == old(out)@ + (seq!['\''] + literal_body(key@) + seq!['\'']));
}

fn push_select_list(out: &mut String, columns: &Vec<String>)
    ensures
        final(out)@ == old(out)@ + select_list(texts(columns@)),
{
    let ghost names = texts(columns@);
    if columns.len() == 0 {
        out.push('*');
        assert(out@ == old(out)@ + seq!['*']);
        return ;
    }
    push_identifier(out, columns[0].as_str());
    proof {
        assert(names.take(1).len() == 1);
        assert(names.take(1)[0] == columns@[0]@);
    }
    let mut i: usize = 1;
    while i < columns.len()
        invariant
            1 <= i <= columns.len(),
            names == texts(columns@),
            out@ == old(out)@ + select_list(names.take(i as int)),
        decreases columns.len() - i,
    {
        proof {
            assert(names.take(i + 1).drop_last() == names.take(i as int));
            assert(names.take(i + 1).last() == columns@[i as int]@);
        }
        out.push(',');
        out.push(' ');
        push_identifier(out, columns[i].as_str());
        assert(out@ == old(out)@ + (select_list(names.take(i as int)) + seq![',', ' ']
            + quoted_identifier(columns@[i as int]@)));
        i = i + 1;
    }
    proof {
        assert(names.take(columns.len() as int) == names);
    }
}

impl Query {
    /// The text of this query: the columns as quoted identifiers (`*`
    /// without columns), the table and the key column as quoted identifiers,
    /// the key as a text literal without its control characters and with its
    /// quotes doubled, the limit and the offset in decimal.
    pub fn to_sql(&self) -> (sql: String)
        ensures
            sql@ == query_text(self@),
    {
        match self {
            Query::Lookup { table, columns, key_column, key } => {
                let mut sql = "SELECT ".to_owned();
                push_select_list(&mut sql, columns);
                sql.append(" FROM ");
                push_identifier(&mut sql, table.as_str());
                sql.append(" WHERE ");
                push_identifier(&mut sql, key_column.as_str());
                sql.append(" = ");
                push_literal(&mut sql, key.as_str());
                sql
            },
            Query::Page { table, columns, limit, offset } => {
                let mut sql = "SELECT ".to_owned();
                push_select_list(&mut sql, columns);
                sql.append(" FROM ");
                push_identifier(&mut sql, table.as_str());
                sql.append(" LIMIT ");
                let limit_text = decimal_string(*limit as i128);
                sql.append(limit_text.as_str());
                sql.append(" OFFSET ");
                let offset_text = decimal_string(*offset as i128);
                sql.append(offset_text.as_str());
                sql
            },
        }
    }
}

impl Clone for Query {
    /// A copy of this query.
    fn clone(&self) -> (q: Query)
        ensures
            q@ == self@,
    {
        match self {
            Query::Lookup { table, columns, key_column, key } => Query::Lookup {
                table: table.clone(),
                columns: duplicate_texts(columns),
                key_column: key_column.clone(),
                key: key.clone(),
            },
            Query::Page { table, columns, limit, offset } => Query::Page {
                table: table.clone(),
                columns: duplicate_texts(columns),
                limit: *limit,
                offset: *offset,
            },
        }
    }
}

} // verus!
