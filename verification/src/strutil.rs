//! Verified string building blocks shared by the renderers and the
//! introspector: escaping, identifier sanitisation, joining, and decimal
//! rendering of integers.

use vstd::prelude::*;

verus! {

/// How a single quote is doubled inside a SQL string literal.
pub open spec fn spec_escape_char(c: char) -> Seq<char> {
    if c == '\'' {
        seq!['\'', '\'']
    } else {
        seq![c]
    }
}

/// The text of a SQL string literal: every single quote doubled.
pub open spec fn spec_escape_string_literal(s: Seq<char>) -> Seq<char> {
    s.flat_map(|c: char| spec_escape_char(c))
}

/// Escape a string for inclusion in a single-quoted SQL literal by
/// doubling every single quote.
pub fn escape_string_literal(s: &str) -> (r: String)
    ensures
        r@ == spec_escape_string_literal(s@),
{
    let n = s.unicode_len();
    let mut out = String::new();
    let mut i: usize = 0;
    proof {
        assert(s@.take(0int).flat_map(|c: char| spec_escape_char(c)) =~= Seq::<char>::empty());
    }
    while i < n
        invariant
            n == s@.len(),
            i <= n,
            out@ == s@.take(i as int).flat_map(|c: char| spec_escape_char(c)),
        decreases n - i,
    {
        let c = s.get_char(i);
        if c == '\'' {
            out.append("''");
            proof {
                reveal_strlit("''");
            }
        } else {
            out.append(s.substring_char(i, i + 1));
        }
        proof {
            s@.lemma_flat_map_take_append(|c: char| spec_escape_char(c), i as int);
            assert(s@.subrange(i as int, i + 1int) =~= seq![s@[i as int]]);
        }
        i = i + 1;
    }
    proof {
        assert(s@.take(n as int) =~= s@);
    }
    out
}

/// Whether a character may stand in a data-model identifier.
pub open spec fn spec_is_identifier_char(c: char) -> bool {
    ||| ('a' <= c && c <= 'z')
    ||| ('A' <= c && c <= 'Z')
    ||| ('0' <= c && c <= '9')
    ||| c == '_'
}

/// A character of a sanitised identifier: kept when legal, `_` otherwise.
pub open spec fn spec_sanitize_char(c: char) -> char {
    if spec_is_identifier_char(c) {
        c
    } else {
        '_'
    }
}

/// A database name turned into a legal identifier, character by character.
pub open spec fn spec_sanitize(s: Seq<char>) -> Seq<char> {
    s.map_values(|c: char| spec_sanitize_char(c))
}

/// Whether a character may stand in a data-model identifier.
pub fn is_identifier_char(c: char) -> (r: bool)
    ensures
        r == spec_is_identifier_char(c),
{
    ('a' <= c && c <= 'z') || ('A' <= c && c <= 'Z') || ('0' <= c && c <= '9') || c == '_'
}

/// Replace every character that may not stand in an identifier by `_`.
pub fn sanitize_identifier(s: &str) -> (r: String)
    ensures
        r@ == spec_sanitize(s@),
{
    let n = s.unicode_len();
    let mut out = String::new();
    let mut i: usize = 0;
    proof {
        assert(s@.take(0int).map_values(|c: char| spec_sanitize_char(c)) =~= Seq::<char>::empty());
    }
    while i < n
        invariant
            n == s@.len(),
            i <= n,
            out@ == s@.take(i as int).map_values(|c: char| spec_sanitize_char(c)),
        decreases n - i,
    {
        let c = s.get_char(i);
        if is_identifier_char(c) {
            out.append(s.substring_char(i, i + 1));
        } else {
            out.append("_");
            proof {
                reveal_strlit("_");
            }
        }
        proof {
            s@.lemma_map_take_succ(|c: char| spec_sanitize_char(c), i as int);
            assert(s@.subrange(i as int, i + 1int) =~= seq![s@[i as int]]);
        }
        i = i + 1;
    }
    proof {
        assert(s@.take(n as int) =~= s@);
    }
    out
}

/// A character of an index name as MSSQL accepts it: dots become underscores.
pub open spec fn spec_undot_char(c: char) -> char {
    if c == '.' {
        '_'
    } else {
        c
    }
}

/// An index name with every `.` replaced by `_`.
pub open spec fn spec_undot(s: Seq<char>) -> Seq<char> {
    s.map_values(|c: char| spec_undot_char(c))
}

/// Replace every `.` by `_`, as MSSQL index names require.
pub fn replace_dots(s: &str) -> (r: String)
    ensures
        r@ == spec_undot(s@),
{
    let n = s.unicode_len();
    let mut out = String::new();
    let mut i: usize = 0;
    proof {
        assert(s@.take(0int).map_values(|c: char| spec_undot_char(c)) =~= Seq::<char>::empty());
    }
    while i < n
        invariant
            n == s@.len(),
            i <= n,
            out@ == s@.take(i as int).map_values(|c: char| spec_undot_char(c)),
        decreases n - i,
    {
        let c = s.get_char(i);
        if c == '.' {
            out.append("_");
            proof {
                reveal_strlit("_");
            }
        } else {
            out.append(s.substring_char(i, i + 1));
        }
        proof {
            s@.lemma_map_take_succ(|c: char| spec_undot_char(c), i as int);
            assert(s@.subrange(i as int, i + 1int) =~= seq![s@[i as int]]);
        }
        i = i + 1;
    }
    proof {
        assert(s@.take(n as int) =~= s@);
    }
    out
}

/// The strings of `items`, joined with `sep` between neighbours.
pub open spec fn spec_join(items: Seq<Seq<char>>, sep: Seq<char>) -> Seq<char>
    decreases items.len(),
{
    if items.len() == 0 {
        Seq::<char>::empty()
    } else if items.len() == 1 {
        items[0]
    } else {
        items[0] + sep + spec_join(items.drop_first(), sep)
    }
}

proof fn lemma_join_push(items: Seq<Seq<char>>, sep: Seq<char>, last: Seq<char>)
    requires
        items.len() > 0,
    ensures
        spec_join(items.push(last), sep) == spec_join(items, sep) + sep + last,
    decreases items.len(),
{
    if items.len() == 1 {
        assert(items.push(last).drop_first() =~= seq![last]);
        assert(spec_join(seq![last], sep) == last);
        assert(spec_join(items.push(last), sep) == items[0] + sep + last);
        assert(spec_join(items, sep) == items[0]);
    } else {
        lemma_join_push(items.drop_first(), sep, last);
        assert(items.push(last).drop_first() =~= items.drop_first().push(last));
        assert(spec_join(items, sep) + sep + last == items[0] + sep + (spec_join(
            items.drop_first(),
            sep,
        ) + sep + last)) by {
            assert((items[0] + sep + spec_join(items.drop_first(), sep)) + sep + last =~= items[0]
                + sep + (spec_join(items.drop_first(), sep) + sep + last));
        }
    }
}

/// Join the strings of `items` with `sep` between neighbours.
pub fn join_strings(items: &Vec<String>, sep: &str) -> (r: String)
    ensures
        r@ == spec_join(items.deep_view(), sep@),
{
    let mut out = String::new();
    let mut i: usize = 0;
    while i < items.len()
        invariant
            i <= items@.len(),
            out@ == spec_join(items.deep_view().take(i as int), sep@),
            items.deep_view().len() == items@.len(),
            forall|j: int|
                0 <= j < items@.len() ==> items.deep_view()[j] == items@[j]@,
        decreases items@.len() - i,
    {
        if i > 0 {
            out.append(sep);
        }
        out.append(items[i].as_str());
        proof {
            let dv = items.deep_view();
            assert(dv.take(i + 1int).drop_last() =~= dv.take(i as int));
            assert(dv.take(i + 1int).last() == dv[i as int]);
            assert(dv.take(i + 1int) =~= dv.take(i as int).push(dv[i as int]));
            if i == 0 {
                assert(spec_join(dv.take(1int), sep@) == dv[0]) by {
                    assert(dv.take(1int) =~= seq![dv[0]]);
                }
            } else {
                lemma_join_push(dv.take(i as int), sep@, dv[i as int]);
            }
        }
        i = i + 1;
    }
    proof {
        assert(items.deep_view().take(items@.len() as int) =~= items.deep_view());
    }
    out
}

/// The decimal digit characters.
pub open spec fn spec_digit_char(d: int) -> char {
    if d == 0 {
        '0'
    } else if d == 1 {
        '1'
    } else if d == 2 {
        '2'
    } else if d == 3 {
        '3'
    } else if d == 4 {
        '4'
    } else if d == 5 {
        '5'
    } else if d == 6 {
        '6'
    } else if d == 7 {
        '7'
    } else if d == 8 {
        '8'
    } else {
        '9'
    }
}

/// The decimal numeral of a non-negative integer, most significant digit
/// first, without leading zeroes (`0` itself is rendered as `0`).
pub open spec fn spec_decimal(n: int) -> Seq<char>
    decreases n,
{
    if n < 10 {
        seq![spec_digit_char(if n < 0 { 0int } else { n })]
    } else {
        spec_decimal(n / 10) + seq![spec_digit_char(n % 10)]
    }
}

fn digit_str(d: u64) -> (r: &'static str)
    requires
        d < 10,
    ensures
        r@ == seq![spec_digit_char(d as int)],
{
    proof {
        reveal_strlit("0");
        reveal_strlit("1");
        reveal_strlit("2");
        reveal_strlit("3");
        reveal_strlit("4");
        reveal_strlit("5");
        reveal_strlit("6");
        reveal_strlit("7");
        reveal_strlit("8");
        reveal_strlit("9");
    }
    match d {
        0 => "0",
        1 => "1",
        2 => "2",
        3 => "3",
        4 => "4",
        5 => "5",
        6 => "6",
        7 => "7",
        8 => "8",
        _ => "9",
    }
}

/// Render an unsigned integer as its decimal numeral.
pub fn render_u64(n: u64) -> (r: String)
    ensures
        r@ == spec_decimal(n as int),
    decreases n,
{
    if n < 10 {
        digit_str(n).to_owned()
    } else {
        let mut r = render_u64(n / 10);
        r.append(digit_str(n % 10));
        r
    }
}

/// The decimal numeral of a signed integer: a leading `-` when negative.
pub open spec fn spec_decimal_i64(n: int) -> Seq<char> {
    if n < 0 {
        seq!['-'] + spec_decimal(-n)
    } else {
        spec_decimal(n)
    }
}

/// Render a signed integer as its decimal numeral.
pub fn render_i64(n: i64) -> (r: String)
    ensures
        r@ == spec_decimal_i64(n as int),
{
    if n < 0 {
        let wide: i128 = n as i128;
        let magnitude: u64 = (-wide) as u64;
        let mut r = String::new();
        r.append("-");
        proof {
            reveal_strlit("-");
        }
        r.append(render_u64(magnitude).as_str());
        r
    } else {
        render_u64(n as u64)
    }
}

/// A numeral padded with leading zeroes up to `width` characters.
pub open spec fn spec_zero_padded(digits: Seq<char>, width: int) -> Seq<char>
    decreases width,
{
    if digits.len() >= width {
        digits
    } else {
        seq!['0'] + spec_zero_padded(digits, width - 1)
    }
}

proof fn lemma_zero_padded_shape(digits: Seq<char>, width: int)
    ensures
        spec_zero_padded(digits, width) == Seq::new(
            if width > digits.len() {
                (width - digits.len()) as nat
            } else {
                0nat
            },
            |i: int| '0',
        ) + digits,
    decreases width,
{
    if digits.len() >= width {
        assert(Seq::new(0nat, |i: int| '0') + digits =~= digits);
    } else {
        lemma_zero_padded_shape(digits, width - 1);
        let shorter = Seq::new((width - 1 - digits.len()) as nat, |i: int| '0');
        let longer = Seq::new((width - digits.len()) as nat, |i: int| '0');
        assert(seq!['0'] + (shorter + digits) =~= longer + digits);
    }
}

/// Render `n` in decimal, padded with leading zeroes to at least `width`
/// characters.
pub fn render_u64_padded(n: u64, width: usize) -> (r: String)
    ensures
        r@ == spec_zero_padded(spec_decimal(n as int), width as int),
{
    let digits = render_u64(n);
    let len = digits.as_str().unicode_len();
    let zeroes: usize = if width > len {
        width - len
    } else {
        0
    };
    let mut out = String::new();
    let mut k: usize = 0;
    proof {
        assert(out@ =~= Seq::new(0nat, |i: int| '0'));
    }
    while k < zeroes
        invariant
            out@ == Seq::new(k as nat, |i: int| '0'),
            k <= zeroes,
        decreases zeroes - k,
    {
        out.append("0");
        proof {
            reveal_strlit("0");
            assert(Seq::new((k + 1) as nat, |i: int| '0') =~= Seq::new(k as nat, |i: int| '0')
                + seq!['0']);
        }
        k = k + 1;
    }
    out.append(digits.as_str());
    proof {
        lemma_zero_padded_shape(digits@, width as int);
    }
    out
}

/// Whether two string slices hold the same characters.
pub fn str_eq(a: &str, b: &str) -> (r: bool)
    ensures
        r == (a@ == b@),
{
    let n = a.unicode_len();
    let m = b.unicode_len();
    if n != m {
        return false;
    }
    let mut i: usize = 0;
    while i < n
        invariant
            n == a@.len(),
            n == b@.len(),
            i <= n,
            forall|j: int| 0 <= j < i ==> a@[j] == b@[j],
        decreases n - i,
    {
        if a.get_char(i) != b.get_char(i) {
            return false;
        }
        i = i + 1;
    }
    proof {
        assert(a@ =~= b@);
    }
    true
}

/// Whether `a` and `b` hold the same characters.
pub fn string_eq(a: &String, b: &String) -> (r: bool)
    ensures
        r == (a@ == b@),
{
    str_eq(a.as_str(), b.as_str())
}

/// Lexicographic order on strings, by character code.
pub open spec fn spec_str_lt(a: Seq<char>, b: Seq<char>) -> bool
    decreases a.len(),
{
    if b.len() == 0 {
        false
    } else if a.len() == 0 {
        true
    } else if (a[0] as u32) < (b[0] as u32) {
        true
    } else if (a[0] as u32) > (b[0] as u32) {
        false
    } else {
        spec_str_lt(a.drop_first(), b.drop_first())
    }
}

proof fn lemma_str_lt_skip(a: Seq<char>, b: Seq<char>, i: int)
    requires
        0 <= i <= a.len(),
        i <= b.len(),
        forall|j: int| 0 <= j < i ==> (a[j] as u32) == (b[j] as u32),
    ensures
        spec_str_lt(a, b) == spec_str_lt(a.skip(i), b.skip(i)),
    decreases i,
{
    if i > 0 {
        lemma_str_lt_skip(a, b, i - 1);
        let sa = a.skip(i - 1);
        let sb = b.skip(i - 1);
        assert(sa[0] == a[i - 1]);
        assert(sb[0] == b[i - 1]);
        assert(sa.drop_first() =~= a.skip(i));
        assert(sb.drop_first() =~= b.skip(i));
    } else {
        assert(a.skip(0) =~= a);
        assert(b.skip(0) =~= b);
    }
}

/// The order is asymmetric.
pub proof fn lemma_str_lt_asym(a: Seq<char>, b: Seq<char>)
    requires
        spec_str_lt(a, b),
    ensures
        !spec_str_lt(b, a),
    decreases a.len(),
{
    if a.len() > 0 && b.len() > 0 {
        if (a[0] as u32) == (b[0] as u32) {
            lemma_str_lt_asym(a.drop_first(), b.drop_first());
        }
    }
}

/// Not sorting before is transitive: with `b` at least `a` and `c` at
/// least `b`, `c` is at least `a`.
pub proof fn lemma_str_ge_trans(a: Seq<char>, b: Seq<char>, c: Seq<char>)
    requires
        !spec_str_lt(b, a),
        !spec_str_lt(c, b),
    ensures
        !spec_str_lt(c, a),
    decreases a.len(),
{
    if a.len() > 0 && b.len() > 0 && c.len() > 0 {
        if (b[0] as u32) == (a[0] as u32) && (c[0] as u32) == (b[0] as u32) {
            lemma_str_ge_trans(a.drop_first(), b.drop_first(), c.drop_first());
        }
    }
}

/// Whether `a` sorts strictly before `b`, character code by character code.
pub fn str_lt(a: &str, b: &str) -> (r: bool)
    ensures
        r == spec_str_lt(a@, b@),
{
    let n = a.unicode_len();
    let m = b.unicode_len();
    let mut i: usize = 0;
    while i < n && i < m
        invariant
            n == a@.len(),
            m == b@.len(),
            i <= n,
            i <= m,
            forall|j: int| 0 <= j < i ==> (a@[j] as u32) == (b@[j] as u32),
        decreases n - i,
    {
        let ca = a.get_char(i) as u32;
        let cb = b.get_char(i) as u32;
        if ca != cb {
            proof {
                lemma_str_lt_skip(a@, b@, i as int);
                assert(a@.skip(i as int)[0] == a@[i as int]);
                assert(b@.skip(i as int)[0] == b@[i as int]);
            }
            return ca < cb;
        }
        i = i + 1;
    }
    proof {
        lemma_str_lt_skip(a@, b@, i as int);
        if i == n {
            assert(a@.skip(i as int) =~= Seq::<char>::empty());
        } else {
            assert(b@.skip(i as int) =~= Seq::<char>::empty());
        }
    }
    n < m
}

/// `base` extended with `suffix`.
pub fn concat_str(base: &str, suffix: &str) -> (r: String)
    ensures
        r@ == base@ + suffix@,
{
    let mut out = base.to_owned();
    out.append(suffix);
    out
}

} // verus!
