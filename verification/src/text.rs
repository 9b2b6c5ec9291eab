//! Text utilities shared by the rest of the library: character sequences,
//! decimal rendering and the character classes of the standard library.

use vstd::prelude::*;

verus! {

/// `String::push` appends one character to the end of the string.
pub assume_specification[ std::string::String::push ](s: &mut std::string::String, c: char)
    ensures
        final(s)@ == old(s)@.push(c),
;

/// Whether `c` is one of the 128 ASCII characters.
pub open spec fn is_ascii_char(c: char) -> bool {
    (c as u32) <= 0x7f
}

/// Whether the standard library classifies a character outside ASCII as
/// uppercase (`char::is_uppercase`, the Unicode `Uppercase` property).
pub uninterp spec fn unicode_is_uppercase(c: char) -> bool;

/// Whether the standard library classifies a character outside ASCII as
/// alphabetic or numeric (`char::is_alphanumeric`).
pub uninterp spec fn unicode_is_alphanumeric(c: char) -> bool;

/// Whether the standard library classifies a character outside ASCII as
/// white space (`char::is_whitespace`, the Unicode `White_Space` property).
pub uninterp spec fn unicode_is_whitespace(c: char) -> bool;

/// The uppercase mapping of a character outside ASCII
/// (`char::to_uppercase`), which may consist of more than one character.
pub uninterp spec fn unicode_uppercase(c: char) -> Seq<char>;

/// Whether `c` is uppercase: in ASCII the letters `A` to `Z`, outside ASCII
/// what the standard library classifies as uppercase.
pub open spec fn char_is_uppercase(c: char) -> bool {
    if is_ascii_char(c) {
        'A' <= c <= 'Z'
    } else {
        unicode_is_uppercase(c)
    }
}

/// Whether `c` is alphabetic or numeric: in ASCII the letters `A` to `Z` and
/// `a` to `z` and the digits `0` to `9`, outside ASCII what the standard
/// library classifies so.
pub open spec fn char_is_alphanumeric(c: char) -> bool {
    if is_ascii_char(c) {
        'A' <= c <= 'Z' || 'a' <= c <= 'z' || '0' <= c <= '9'
    } else {
        unicode_is_alphanumeric(c)
    }
}

/// Whether `c` is white space: in ASCII the blank and the five characters
/// from the tabulator (9) to the carriage return (13), outside ASCII what
/// the standard library classifies so.
pub open spec fn char_is_whitespace(c: char) -> bool {
    if is_ascii_char(c) {
        c == ' ' || 9 <= (c as u32) <= 13
    } else {
        unicode_is_whitespace(c)
    }
}

/// The uppercase mapping of `c`: in ASCII the letters `a` to `z` become `A`
/// to `Z` and every other character stays; outside ASCII it is the mapping
/// of the standard library.
pub open spec fn char_uppercase(c: char) -> Seq<char> {
    if is_ascii_char(c) {
        if 'a' <= c <= 'z' {
            seq![((c as u8) - 32) as char]
        } else {
            seq![c]
        }
    } else {
        unicode_uppercase(c)
    }
}

/// `char::is_uppercase` decides the Unicode `Uppercase` property, which in
/// ASCII the letters `A` to `Z` have and no other character; its result
/// depends on the character alone.
pub assume_specification[ char::is_uppercase ](c: char) -> (b: bool)
    ensures
        b == char_is_uppercase(c),
        !is_ascii_char(c) ==> b == unicode_is_uppercase(c),
;

/// `char::is_alphanumeric` decides whether the character is alphabetic or
/// numeric, which in ASCII the letters and the digits are and no other
/// character; its result depends on the character alone.
pub assume_specification[ char::is_alphanumeric ](c: char) -> (b: bool)
    ensures
        b == char_is_alphanumeric(c),
        !is_ascii_char(c) ==> b == unicode_is_alphanumeric(c),
;

/// `char::is_whitespace` decides the Unicode `White_Space` property, which in
/// ASCII the blank and the characters 9 to 13 have and no other character;
/// its result depends on the character alone.
pub assume_specification[ char::is_whitespace ](c: char) -> (b: bool)
    ensures
        b == char_is_whitespace(c),
        !is_ascii_char(c) ==> b == unicode_is_whitespace(c),
;

/// Collects what `char::to_uppercase` yields for `c`: for an ASCII character
/// its ASCII uppercase form alone. The mapping depends on the character
/// alone.
#[verifier::external_body]
pub(crate) fn uppercase_of(c: char) -> (s: String)
    ensures
        s@ == char_uppercase(c),
        !is_ascii_char(c) ==> s@ == unicode_uppercase(c),
{
    c.to_uppercase().collect()
}

/// The characters of `s`, in order.
pub fn chars_of(s: &str) -> (v: Vec<char>)
    ensures
        v@ == s@,
{
    let mut v: Vec<char> = Vec::new();
    for c in it: s.chars()
        invariant
            it.seq() == s@,
            v@ == it.seq().take(it.index()),
    {
        v.push(c);
    }
    v
}

/// The string made of the characters `v[from..to]`.
pub fn string_of(v: &Vec<char>, from: usize, to: usize) -> (s: String)
    requires
        from <= to <= v.len(),
    ensures
        s@ == v@.subrange(from as int, to as int),
{
    let mut s = String::new();
    let mut i: usize = from;
    while i < to
        invariant
            from <= i <= to <= v.len(),
            s@ == v@.subrange(from as int, i as int),
        decreases to - i,
    {
        s.push(v[i]);
        i = i + 1;
    }
    s
}

/// `s` ends with `suffix`.
pub open spec fn has_suffix(s: Seq<char>, suffix: Seq<char>) -> bool {
    suffix.len() <= s.len() && s.subrange(s.len() - suffix.len(), s.len() as int) == suffix
}

/// `s` starts with `prefix`.
pub open spec fn has_prefix(s: Seq<char>, prefix: Seq<char>) -> bool {
    prefix.len() <= s.len() && s.subrange(0, prefix.len() as int) == prefix
}

/// Whether `v[at..]` starts with `pattern`.
pub fn matches_at(v: &Vec<char>, at: usize, pattern: &Vec<char>) -> (b: bool)
    requires
        at <= v.len(),
    ensures
        b == has_prefix(v@.skip(at as int), pattern@),
{
    if pattern.len() > v.len() - at {
        return false;
    }
    let mut i: usize = 0;
    while i < pattern.len()
        invariant
            at <= v.len(),
            pattern.len() <= v.len() - at,
            i <= pattern.len(),
            v@.skip(at as int).subrange(0, i as int) == pattern@.subrange(0, i as int),
        decreases pattern.len() - i,
    {
        if v[at + i] != pattern[i] {
            assert(v@.skip(at as int).subrange(0, pattern.len() as int)[i as int]
                != pattern@[i as int]);
            return false;
        }
        assert(v@.skip(at as int).subrange(0, i + 1) == v@.skip(at as int).subrange(
            0,
            i as int,
        ).push(v@[at + i]));
        assert(pattern@.subrange(0, i + 1) == pattern@.subrange(0, i as int).push(pattern@[i as int]));
        i = i + 1;
    }
    assert(pattern@.subrange(0, pattern.len() as int) == pattern@);
    true
}

/// Whether `s` ends with `suffix`.
pub fn ends_with(s: &str, suffix: &str) -> (b: bool)
    ensures
        b == has_suffix(s@, suffix@),
{
    let v = chars_of(s);
    let p = chars_of(suffix);
    if p.len() > v.len() {
        return false;
    }
    let at = v.len() - p.len();
    let b = matches_at(&v, at, &p);
    proof {
        assert(v@.skip(at as int).subrange(0, p.len() as int) == v@.subrange(
            v.len() - p.len(),
            v.len() as int,
        ));
    }
    b
}

/// Whether `a` and `b` hold the same characters.
pub fn same_text(a: &str, b: &str) -> (r: bool)
    ensures
        r == (a@ == b@),
{
    let v = chars_of(a);
    let p = chars_of(b);
    if v.len() != p.len() {
        return false;
    }
    let r = matches_at(&v, 0, &p);
    proof {
        assert(v@.skip(0) == v@);
        assert(v@.subrange(0, p.len() as int) == v@);
    }
    r
}

/// The character of the decimal digit `d`.
pub open spec fn digit_char(d: int) -> char
    recommends
        0 <= d <= 9,
{
    if d == 0 {
        '0'
    } else if d == 1 {
        '1'
    } else if d == 2 {
        '2'
    } else if d == 3 {
        '3'
    } else if d == 4 {
        '4'
    } else if d == 5 {
        '5'
    } else if d == 6 {
        '6'
    } else if d == 7 {
        '7'
    } else if d == 8 {
        '8'
    } else {
        '9'
    }
}

/// The decimal digits of `n`, most significant first, without leading zeros.
pub open spec fn decimal_digits(n: nat) -> Seq<char>
    decreases n,
{
    if n < 10 {
        seq![digit_char(n as int)]
    } else {
        decimal_digits(n / 10).push(digit_char((n % 10) as int))
    }
}

/// The decimal rendering of `i`: a minus sign for negative numbers, then the
/// digits of the magnitude.
pub open spec fn decimal_text(i: int) -> Seq<char> {
    if i < 0 {
        seq!['-'] + decimal_digits((-i) as nat)
    } else {
        decimal_digits(i as nat)
    }
}

fn digit_of(d: u8) -> (c: char)
    requires
        d <= 9,
    ensures
        c == digit_char(d as int),
{
    if d == 0 {
        '0'
    } else if d == 1 {
        '1'
    } else if d == 2 {
        '2'
    } else if d == 3 {
        '3'
    } else if d == 4 {
        '4'
    } else if d == 5 {
        '5'
    } else if d == 6 {
        '6'
    } else if d == 7 {
        '7'
    } else if d == 8 {
        '8'
    } else {
        '9'
    }
}

fn push_decimal_digits(out: &mut String, n: u128)
    ensures
        final(out)@ == old(out)@ + decimal_digits(n as nat),
    decreases n,
{
    if n >= 10 {
        push_decimal_digits(out, n / 10);
    }
    let d: u8 = (n % 10) as u8;
    out.push(digit_of(d));
    proof {
        if n >= 10 {
            assert(final(out)@ == old(out)@ + decimal_digits(n as nat / 10).push(
                digit_char((n % 10) as int),
            ));
        } else {
            assert(final(out)@ == old(out)@ + seq![digit_char(n as int)]);
        }
    }
}

/// Renders `value` in decimal.
pub fn decimal_string(value: i128) -> (s: String)
    ensures
        s@ == decimal_text(value as int),
{
    let mut s = String::new();
    if value < 0 {
        s.push('-');
        let magnitude: u128 = ((-(value + 1)) as u128) + 1;
        push_decimal_digits(&mut s, magnitude);
        assert(s@ == seq!['-'] + decimal_digits((-value) as nat));
    } else {
        push_decimal_digits(&mut s, value as u128);
        assert(s@ == decimal_digits(value as nat));
    }
    s
}

/// `head` followed by `tail`.
pub fn concat2(head: &str, tail: &str) -> (s: String)
    ensures
        s@ == head@ + tail@,
{
    let mut s = head.to_owned();
    s.append(tail);
    s
}

/// `a`, `b` and `c` joined in this order.
pub fn concat3(a: &str, b: &str, c: &str) -> (s: String)
    ensures
        s@ == a@ + b@ + c@,
{
    let mut s = a.to_owned();
    s.append(b);
    s.append(c);
    s
}

/// `a`, `b`, `c` and `d` joined in this order.
pub fn concat4(a: &str, b: &str, c: &str, d: &str) -> (s: String)
    ensures
        s@ == a@ + b@ + c@ + d@,
{
    let mut s = a.to_owned();
    s.append(b);
    s.append(c);
    s.append(d);
    s
}

/// `a`, `b`, `c`, `d` and `e` joined in this order.
pub fn concat5(a: &str, b: &str, c: &str, d: &str, e: &str) -> (s: String)
    ensures
        s@ == a@ + b@ + c@ + d@ + e@,
{
    let mut s = a.to_owned();
    s.append(b);
    s.append(c);
    s.append(d);
    s.append(e);
    s
}

/// The character sequences of a list of strings.
pub open spec fn texts(v: Seq<String>) -> Seq<Seq<char>> {
    Seq::new(v.len(), |i: int| v[i]@)
}

/// A copy of a list of strings.
pub fn duplicate_texts(v: &Vec<String>) -> (r: Vec<String>)
    ensures
        texts(r@) == texts(v@),
{
    let mut r: Vec<String> = Vec::new();
    let mut i: usize = 0;
    while i < v.len()
        invariant
            i <= v.len(),
            texts(r@) == texts(v@).take(i as int),
        decreases v.len() - i,
    {
        let ghost before = r@;
        r.push(v[i].clone());
        proof {
            assert(texts(r@) =~= texts(before).push(v@[i as int]@));
            assert(texts(v@).take(i + 1) =~= texts(v@).take(i as int).push(v@[i as int]@));
        }
        i = i + 1;
    }
    proof {
        assert(texts(v@).take(v.len() as int) == texts(v@));
    }
    r
}

/// `s` without the run of `c` at its end.
pub open spec fn without_trailing(s: Seq<char>, c: char) -> Seq<char>
    decreases s.len(),
{
    if s.len() > 0 && s.last() == c {
        without_trailing(s.drop_last(), c)
    } else {
        s
    }
}

/// `s` without the run of `c` at its end.
pub fn trim_end_matches(s: &str, c: char) -> (r: String)
    ensures
        r@ == without_trailing(s@, c),
{
    let v = chars_of(s);
    let mut end: usize = v.len();
    proof {
        assert(v@.take(v.len() as int) == v@);
    }
    while end > 0 && v[end - 1] == c
        invariant
            end <= v.len(),
            without_trailing(v@, c) == without_trailing(v@.take(end as int), c),
        decreases end,
    {
        proof {
            assert(v@.take(end as int).drop_last() == v@.take(end - 1));
        }
        end = end - 1;
    }
    proof {
        assert(v@.take(end as int) == v@.subrange(0, end as int));
    }
    string_of(&v, 0, end)
}

/// `s` without every occurrence of `pattern`, reading from the left; every
/// character stays where the pattern is empty.
pub open spec fn without_pattern(s: Seq<char>, pattern: Seq<char>) -> Seq<char>
    decreases s.len(),
{
    if s.len() == 0 {
        Seq::empty()
    } else if pattern.len() > 0 && has_prefix(s, pattern) {
        without_pattern(s.skip(pattern.len() as int), pattern)
    } else {
        seq![s[0]] + without_pattern(s.skip(1), pattern)
    }
}

/// `s` without every occurrence of `pattern`.
pub fn remove_all(s: &str, pattern: &str) -> (r: String)
    ensures
        r@ == without_pattern(s@, pattern@),
{
    let v = chars_of(s);
    let p = chars_of(pattern);
    let mut r = String::new();
    let mut i: usize = 0;
    proof {
        assert(v@.skip(0) == v@);
        assert(r@ + without_pattern(v@, p@) == without_pattern(v@, p@));
    }
    while i < v.len()
        invariant
            i <= v.len(),
            r@ + without_pattern(v@.skip(i as int), p@) == without_pattern(v@, p@),
        decreases v.len() - i,
    {
        let ghost rest = v@.skip(i as int);
        if p.len() > 0 && matches_at(&v, i, &p) {
            proof {
                assert(rest.skip(p.len() as int) == v@.skip(i + p.len()));
            }
            i = i + p.len();
        } else {
            let ghost before = r@;
            r.push(v[i]);
            proof {
                assert(rest.skip(1) == v@.skip(i + 1));
                assert(rest[0] == v@[i as int]);
                assert(before.push(v@[i as int]) + without_pattern(v@.skip(i + 1), p@) == before + (
                    seq![v@[i as int]] + without_pattern(v@.skip(i + 1), p@)));
            }
            i = i + 1;
        }
    }
    proof {
        assert(v@.skip(v.len() as int).len() == 0);
        assert(r@ + Seq::<char>::empty() == r@);
    }
    r
}

/// The first of the first `n` names that ends in `suffix`.
pub open spec fn first_with_suffix(names: Seq<Seq<char>>, suffix: Seq<char>, n: nat) -> Option<int>
    decreases n,
{
    if n == 0 {
        None
    } else {
        match first_with_suffix(names, suffix, (n - 1) as nat) {
            Some(i) => Some(i),
            None => if has_suffix(names[n - 1], suffix) {
                Some(n - 1)
            } else {
                None
            },
        }
    }
}

/// Once a name with the suffix is found among the first `k`, it is the one
/// found among the first `n`.
pub proof fn lemma_first_with_suffix_stays(names: Seq<Seq<char>>, suffix: Seq<char>, k: nat, n: nat)
    requires
        k <= n,
        first_with_suffix(names, suffix, k) is Some,
    ensures
        first_with_suffix(names, suffix, n) == first_with_suffix(names, suffix, k),
    decreases n - k,
{
    if k < n {
        lemma_first_with_suffix_stays(names, suffix, k, (n - 1) as nat);
    }
}

/// One of the names is `name`.
pub open spec fn contains_name(names: Seq<Seq<char>>, name: Seq<char>) -> bool {
    exists|i: int| 0 <= i < names.len() && #[trigger] names[i] == name
}

/// Whether one of the strings is `name`.
pub fn contains_text(v: &Vec<String>, name: &str) -> (found: bool)
    ensures
        found == contains_name(texts(v@), name@),
{
    let ghost names = texts(v@);
    let mut i: usize = 0;
    while i < v.len()
        invariant
            i <= v.len(),
            names == texts(v@),
            forall|k: int| 0 <= k < i ==> #[trigger] names[k] != name@,
        decreases v.len() - i,
    {
        if same_text(v[i].as_str(), name) {
            assert(names[i as int] == name@);
            return true;
        }
        i = i + 1;
    }
    false
}

/// The position of the first of the strings that ends in `suffix`.
pub fn find_with_suffix(v: &Vec<String>, suffix: &str) -> (r: Option<usize>)
    ensures
        match r {
            Some(i) => first_with_suffix(texts(v@), suffix@, v@.len()) == Some(i as int) && i
                < v@.len(),
            None => first_with_suffix(texts(v@), suffix@, v@.len()) is None,
        },
{
    let ghost names = texts(v@);
    let mut i: usize = 0;
    while i < v.len()
        invariant
            i <= v.len(),
            names == texts(v@),
            first_with_suffix(names, suffix@, i as nat) is None,
        decreases v.len() - i,
    {
        proof {
            assert(names[i as int] == v@[i as int]@);
        }
        if ends_with(v[i].as_str(), suffix) {
            proof {
                lemma_first_with_suffix_stays(names, suffix@, (i + 1) as nat, names.len());
            }
            return Some(i);
        }
        i = i + 1;
    }
    None
}

/// `s` without the white space at its end.
pub open spec fn without_trailing_space(s: Seq<char>) -> Seq<char>
    decreases s.len(),
{
    if s.len() > 0 && char_is_whitespace(s.last()) {
        without_trailing_space(s.drop_last())
    } else {
        s
    }
}

/// `s` without the white space at its start.
pub open spec fn without_leading_space(s: Seq<char>) -> Seq<char>
    decreases s.len(),
{
    if s.len() > 0 && char_is_whitespace(s[0]) {
        without_leading_space(s.skip(1))
    } else {
        s
    }
}

/// `s` without the white space at its two ends.
pub open spec fn trimmed(s: Seq<char>) -> Seq<char> {
    without_leading_space(without_trailing_space(s))
}

/// `s` without the white space at its two ends.
pub fn trim(s: &str) -> (r: String)
    ensures
        r@ == trimmed(s@),
{
    let v = chars_of(s);
    let mut end: usize = v.len();
    proof {
        assert(v@.take(v.len() as int) == v@);
    }
    while end > 0 && v[end - 1].is_whitespace()
        invariant
            end <= v.len(),
            without_trailing_space(v@) == without_trailing_space(v@.take(end as int)),
        decreases end,
    {
        proof {
            assert(v@.take(end as int).drop_last() == v@.take(end - 1));
        }
        end = end - 1;
    }
    let ghost kept = v@.take(end as int);
    let mut start: usize = 0;
    proof {
        assert(kept.skip(0) == kept);
    }
    while start < end && v[start].is_whitespace()
        invariant
            start <= end <= v.len(),
            kept == v@.take(end as int),
            without_leading_space(kept) == without_leading_space(kept.skip(start as int)),
        decreases end - start,
    {
        proof {
            assert(kept.skip(start as int).skip(1) == kept.skip(start + 1));
            assert(kept.skip(start as int)[0] == v@[start as int]);
        }
        start = start + 1;
    }
    proof {
        assert(kept.skip(start as int) == v@.subrange(start as int, end as int));
        if start < end {
            assert(kept.skip(start as int)[0] == v@[start as int]);
        }
    }
    string_of(&v, start, end)
}

/// The pieces of `s` between the occurrences of `separator`: one more piece
/// than there are separators.
pub open spec fn split_on(s: Seq<char>, separator: char) -> Seq<Seq<char>>
    decreases s.len(),
{
    if s.len() == 0 {
        seq![Seq::empty()]
    } else {
        let head = split_on(s.drop_last(), separator);
        if s.last() == separator {
            head.push(Seq::empty())
        } else {
            head.update(head.len() - 1, head.last().push(s.last()))
        }
    }
}

/// The pieces of `s` between the occurrences of `separator`.
pub fn split(s: &str, separator: char) -> (pieces: Vec<String>)
    ensures
        texts(pieces@) == split_on(s@, separator),
{
    let v = chars_of(s);
    let mut pieces: Vec<String> = Vec::new();
    let mut current = String::new();
    let mut i: usize = 0;
    proof {
        assert(texts(pieces@).push(current@) =~= seq![Seq::<char>::empty()]);
    }
    while i < v.len()
        invariant
            i <= v.len(),
            v@ == s@,
            texts(pieces@).push(current@) == split_on(v@.take(i as int), separator),
        decreases v.len() - i,
    {
        let ghost done = texts(pieces@);
        let ghost piece = current@;
        proof {
            assert(v@.take(i + 1).drop_last() == v@.take(i as int));
        }
        if v[i] == separator {
            let ghost before = pieces@;
            pieces.push(current);
            current = String::new();
            proof {
                assert(texts(pieces@) =~= texts(before).push(piece));
            }
        } else {
            current.push(v[i]);
            proof {
                assert(done.push(current@) =~= done.push(piece).update(
                    done.len() as int,
                    piece.push(v@[i as int]),
                ));
            }
        }
        i = i + 1;
    }
    let ghost before = pieces@;
    let ghost piece = current@;
    pieces.push(current);
    proof {
        assert(texts(pieces@) =~= texts(before).push(piece));
        assert(v@.take(v.len() as int) == v@);
    }
    pieces
}

/// The first of the first `n` names that also stands before itself.
pub open spec fn first_repeat(names: Seq<Seq<char>>, n: nat) -> Option<int>
    decreases n,
{
    if n == 0 {
        None
    } else {
        match first_repeat(names, (n - 1) as nat) {
            Some(j) => Some(j),
            None => if exists|i: int| 0 <= i < n - 1 && #[trigger] names[i] == names[n - 1] {
                Some(n - 1)
            } else {
                None
            },
        }
    }
}

/// Once a repeat is found among the first `k` names, it is the one found
/// among the first `n`.
pub proof fn lemma_repeat_stays(names: Seq<Seq<char>>, k: nat, n: nat)
    requires
        k <= n,
        first_repeat(names, k) is Some,
    ensures
        first_repeat(names, n) == first_repeat(names, k),
    decreases n - k,
{
    if k < n {
        lemma_repeat_stays(names, k, (n - 1) as nat);
    }
}

/// Where no repeat is found, no two of the first `n` names are equal.
pub proof fn lemma_no_repeat(names: Seq<Seq<char>>, n: nat)
    requires
        first_repeat(names, n) is None,
    ensures
        forall|i: int, j: int| 0 <= i < j < n ==> #[trigger] names[i] != #[trigger] names[j],
    decreases n,
{
    if n > 0 {
        lemma_no_repeat(names, (n - 1) as nat);
    }
}

/// The position of the first of the strings that also stands before itself.
pub fn find_repeat(names: &Vec<String>) -> (r: Option<usize>)
    ensures
        match r {
            Some(j) => first_repeat(texts(names@), names@.len()) == Some(j as int) && j
                < names@.len(),
            None => first_repeat(texts(names@), names@.len()) is None,
        },
{
    let ghost view = texts(names@);
    let mut j: usize = 0;
    while j < names.len()
        invariant
            j <= names.len(),
            view == texts(names@),
            first_repeat(view, j as nat) is None,
        decreases names.len() - j,
    {
        let mut i: usize = 0;
        while i < j
            invariant
                i <= j,
                j < names.len(),
                view == texts(names@),
                first_repeat(view, j as nat) is None,
                forall|k: int| 0 <= k < i ==> #[trigger] view[k] != view[j as int],
            decreases j - i,
        {
            if same_text(names[i].as_str(), names[j].as_str()) {
                proof {
                    assert(view[i as int] == view[j as int]);
                    assert(first_repeat(view, (j + 1) as nat) == Some(j as int));
                    lemma_repeat_stays(view, (j + 1) as nat, names@.len());
                }
                return Some(j);
            }
            i = i + 1;
        }
        j = j + 1;
    }
    None
}

} // verus!
