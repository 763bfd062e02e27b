//! Character-level string utilities shared by the rest of the library.

use vstd::prelude::*;

verus! {

/// Appends one character at the end of `s` (std `String::push`).
#[verifier::external_body]
pub(crate) fn push_char(s: &mut String, c: char)
    ensures
        final(s)@ == old(s)@.push(c),
{
    s.push(c);
}

/// The ASCII digit that writes `d` (for `0 <= d < 10`).
pub open spec fn digit_char(d: int) -> char {
    (48 + d) as char
}

/// Decimal notation of a natural number, most significant digit first,
/// without leading zeros.
pub open spec fn spec_decimal(n: nat) -> Seq<char>
    decreases n,
{
    if n < 10 {
        seq![digit_char(n as int)]
    } else {
        spec_decimal(n / 10).push(digit_char((n % 10) as int))
    }
}

/// Whether `c` is one of the ASCII digits `0` to `9`.
pub open spec fn decimal_digit(c: char) -> bool {
    48 <= (c as int) <= 57
}

/// The number that a run of ASCII digits denotes in base ten.
pub open spec fn decimal_value(s: Seq<char>) -> int
    decreases s.len(),
{
    if s.len() == 0 {
        0
    } else {
        decimal_value(s.drop_last()) * 10 + ((s.last() as int) - 48)
    }
}

/// The decimal notation of `n` is a non-empty run of digits, with no
/// leading zero unless it is `0` itself, that reads back as `n`.
pub proof fn lemma_decimal_reads_back(n: nat)
    ensures
        spec_decimal(n).len() >= 1,
        forall|i: int| 0 <= i < spec_decimal(n).len() ==> decimal_digit(#[trigger] spec_decimal(n)[i]),
        decimal_value(spec_decimal(n)) == n,
        n > 0 ==> spec_decimal(n)[0] != '0',
        spec_decimal(n).len() > 1 ==> spec_decimal(n)[0] != '0',
    decreases n,
{
    let d = digit_char((n % 10) as int);
    assert((d as int) == 48 + (n % 10));
    if n >= 10 {
        lemma_decimal_reads_back(n / 10);
        let s = spec_decimal(n / 10);
        let t = s.push(d);
        assert(t.drop_last() =~= s);
        assert(t.last() == d);
        assert forall|i: int| 0 <= i < t.len() implies decimal_digit(#[trigger] t[i]) by {
            if i < s.len() {
                assert(t[i] == s[i]);
            }
        }
        assert(decimal_value(t) == decimal_value(s) * 10 + (n % 10));
        assert(t[0] == s[0]);
        assert(n == (n / 10) * 10 + n % 10);
    } else {
        assert(seq![d].drop_last() =~= Seq::<char>::empty());
        assert(decimal_value(Seq::<char>::empty()) == 0);
    }
}

fn digit(d: u64) -> (c: char)
    requires
        d < 10,
    ensures
        c == digit_char(d as int),
{
    let b: u8 = 48u8 + (d as u8);
    b as char
}

/// Writes `n` in decimal.
pub fn decimal_string(n: u64) -> (s: String)
    ensures
        s@ == spec_decimal(n as nat),
    decreases n,
{
    if n < 10 {
        let mut s = String::new();
        push_char(&mut s, digit(n));
        s
    } else {
        let mut s = decimal_string(n / 10);
        push_char(&mut s, digit(n % 10));
        s
    }
}


/// Whether `c` has the Unicode `White_Space` property, the set that
/// `char::is_whitespace` and `str::trim` use: tab to carriage return, space,
/// next line, no-break space, ogham space mark, the spaces from en quad to
/// hair space, the line and paragraph separators, narrow no-break space,
/// medium mathematical space and ideographic space.
pub open spec fn is_unicode_whitespace(c: char) -> bool {
    let v = c as u32;
    ||| 0x09 <= v <= 0x0D
    ||| v == 0x20
    ||| v == 0x85
    ||| v == 0xA0
    ||| v == 0x1680
    ||| 0x2000 <= v <= 0x200A
    ||| v == 0x2028
    ||| v == 0x2029
    ||| v == 0x202F
    ||| v == 0x205F
    ||| v == 0x3000
}

/// Whether `c` is Unicode whitespace.
pub fn char_is_whitespace(c: char) -> (b: bool)
    ensures
        b == is_unicode_whitespace(c),
{
    let v = c as u32;
    (0x09 <= v && v <= 0x0D) || v == 0x20 || v == 0x85 || v == 0xA0 || v == 0x1680
        || (0x2000 <= v && v <= 0x200A) || v == 0x2028 || v == 0x2029 || v == 0x202F
        || v == 0x205F || v == 0x3000
}

/// `s` without its leading whitespace.
pub open spec fn trim_start(s: Seq<char>) -> Seq<char>
    decreases s.len(),
{
    if s.len() > 0 && is_unicode_whitespace(s[0]) {
        trim_start(s.drop_first())
    } else {
        s
    }
}

/// `s` without its trailing whitespace.
pub open spec fn trim_end(s: Seq<char>) -> Seq<char>
    decreases s.len(),
{
    if s.len() > 0 && is_unicode_whitespace(s.last()) {
        trim_end(s.drop_last())
    } else {
        s
    }
}

/// `s` without leading and trailing whitespace, as `str::trim` gives it.
pub open spec fn spec_trim(s: Seq<char>) -> Seq<char> {
    trim_end(trim_start(s))
}

proof fn lemma_trim_start_head(s: Seq<char>)
    ensures
        trim_start(s).len() == 0 || !is_unicode_whitespace(trim_start(s)[0]),
    decreases s.len(),
{
    if s.len() > 0 && is_unicode_whitespace(s[0]) {
        lemma_trim_start_head(s.drop_first());
    }
}

proof fn lemma_trim_end_tail(s: Seq<char>)
    ensures
        trim_end(s).len() == 0 || !is_unicode_whitespace(trim_end(s).last()),
    decreases s.len(),
{
    if s.len() > 0 && is_unicode_whitespace(s.last()) {
        lemma_trim_end_tail(s.drop_last());
    }
}

proof fn lemma_trim_end_keeps_head(s: Seq<char>)
    requires
        s.len() > 0,
        !is_unicode_whitespace(s[0]),
    ensures
        trim_end(s).len() > 0,
        trim_end(s)[0] == s[0],
    decreases s.len(),
{
    if is_unicode_whitespace(s.last()) {
        assert(s.len() >= 2);
        assert(s.drop_last()[0] == s[0]);
        lemma_trim_end_keeps_head(s.drop_last());
    }
}

/// Trimming twice is trimming once: a trimmed text has no whitespace left
/// at either end.
pub proof fn lemma_trim_idempotent(s: Seq<char>)
    ensures
        spec_trim(spec_trim(s)) == spec_trim(s),
{
    let x = trim_start(s);
    let y = trim_end(x);
    lemma_trim_start_head(s);
    lemma_trim_end_tail(x);
    if x.len() > 0 {
        lemma_trim_end_keeps_head(x);
    }
    assert(trim_start(y) == y);
    assert(trim_end(y) == y);
}

/// Removes leading and trailing Unicode whitespace.
pub fn trim(s: &str) -> (t: &str)
    ensures
        t@ == spec_trim(s@),
{
    let n = s.unicode_len();
    let mut i: usize = 0;
    assert(s@.subrange(0, n as int) =~= s@);
    loop
        invariant
            n == s@.len(),
            0 <= i <= n,
            trim_start(s@) == trim_start(s@.subrange(i as int, n as int)),
        ensures
            0 <= i <= n,
            trim_start(s@) == s@.subrange(i as int, n as int),
        decreases n - i,
    {
        if i == n {
            assert(s@.subrange(i as int, n as int) =~= Seq::<char>::empty());
            break;
        }
        let c = s.get_char(i);
        if !char_is_whitespace(c) {
            break;
        }
        assert(s@.subrange(i as int, n as int).drop_first() =~= s@.subrange(i + 1, n as int));
        i = i + 1;
    }
    let mut j: usize = n;
    loop
        invariant
            n == s@.len(),
            0 <= i <= j <= n,
            trim_end(s@.subrange(i as int, n as int)) == trim_end(s@.subrange(i as int, j as int)),
        ensures
            0 <= i <= j <= n,
            trim_end(s@.subrange(i as int, n as int)) == s@.subrange(i as int, j as int),
        decreases j,
    {
        if j == i {
            assert(s@.subrange(i as int, j as int) =~= Seq::<char>::empty());
            break;
        }
        let c = s.get_char(j - 1);
        if !char_is_whitespace(c) {
            break;
        }
        assert(s@.subrange(i as int, j as int).drop_last() =~= s@.subrange(i as int, j - 1));
        j = j - 1;
    }
    s.substring_char(i, j)
}

/// The fields of `s` separated by `sep`, as `str::split` with a character
/// pattern yields them (an empty `s` has one empty field).
pub open spec fn split_on(s: Seq<char>, sep: char) -> Seq<Seq<char>>
    decreases s.len(),
{
    if s.len() == 0 {
        seq![Seq::<char>::empty()]
    } else {
        let fields = split_on(s.drop_last(), sep);
        if s.last() == sep {
            fields.push(Seq::<char>::empty())
        } else {
            fields.update(fields.len() - 1, fields.last().push(s.last()))
        }
    }
}

/// There is always at least one field.
pub proof fn lemma_split_on_nonempty(s: Seq<char>, sep: char)
    ensures
        split_on(s, sep).len() >= 1,
    decreases s.len(),
{
    if s.len() > 0 {
        lemma_split_on_nonempty(s.drop_last(), sep);
    }
}

/// Splits `s` at every occurrence of `sep`.
pub fn split_char(s: &str, sep: char) -> (fields: Vec<String>)
    ensures
        fields@.len() == split_on(s@, sep).len(),
        forall|k: int| 0 <= k < fields@.len() ==> #[trigger] fields@[k]@ == split_on(s@, sep)[k],
{
    let n = s.unicode_len();
    let mut fields: Vec<String> = Vec::new();
    let mut current = String::new();
    let mut i: usize = 0;
    while i < n
        invariant
            n == s@.len(),
            0 <= i <= n,
            fields@.len() + 1 == split_on(s@.take(i as int), sep).len(),
            forall|k: int| 0 <= k < fields@.len() ==> #[trigger] fields@[k]@ == split_on(s@.take(i as int), sep)[k],
            current@ == split_on(s@.take(i as int), sep).last(),
        decreases n - i,
    {
        let c = s.get_char(i);
        proof {
            assert(s@.take(i + 1).drop_last() =~= s@.take(i as int));
            lemma_split_on_nonempty(s@.take(i as int), sep);
        }
        if c == sep {
            fields.push(current);
            current = String::new();
        } else {
            push_char(&mut current, c);
        }
        i = i + 1;
    }
    assert(s@.take(n as int) =~= s@);
    fields.push(current);
    fields
}

/// `s` with every `from` character replaced by `to`.
pub open spec fn replace_all(s: Seq<char>, from: char, to: char) -> Seq<char> {
    s.map_values(|c: char| if c == from { to } else { c })
}

/// Replaces every occurrence of the character `from` by `to`.
pub fn replace_char(s: &str, from: char, to: char) -> (r: String)
    ensures
        r@ == replace_all(s@, from, to),
{
    let n = s.unicode_len();
    let mut r = String::new();
    let mut i: usize = 0;
    while i < n
        invariant
            n == s@.len(),
            0 <= i <= n,
            r@ == replace_all(s@.take(i as int), from, to),
        decreases n - i,
    {
        let c = s.get_char(i);
        if c == from {
            push_char(&mut r, to);
        } else {
            push_char(&mut r, c);
        }
        assert(replace_all(s@.take(i + 1), from, to) =~= replace_all(s@.take(i as int), from, to).push(
            if c == from { to } else { c },
        ));
        i = i + 1;
    }
    assert(s@.take(n as int) =~= s@);
    r
}

/// Whether the last character of `s` is `c`.
pub fn ends_with_char(s: &str, c: char) -> (b: bool)
    ensures
        b == (s@.len() > 0 && s@.last() == c),
{
    let n = s.unicode_len();
    if n == 0 {
        false
    } else {
        s.get_char(n - 1) == c
    }
}

/// `parts` with `sep` written between consecutive parts.
pub open spec fn spec_join(parts: Seq<Seq<char>>, sep: Seq<char>) -> Seq<char>
    decreases parts.len(),
{
    if parts.len() == 0 {
        Seq::empty()
    } else if parts.len() == 1 {
        parts[0]
    } else {
        spec_join(parts.drop_last(), sep) + sep + parts.last()
    }
}

/// The views of a list of strings.
pub open spec fn views(v: Seq<String>) -> Seq<Seq<char>> {
    v.map_values(|s: String| s@)
}

/// Joins `parts` with `sep` between them (as `[String]::join`).
pub fn join(parts: &Vec<String>, sep: &str) -> (r: String)
    ensures
        r@ == spec_join(views(parts@), sep@),
{
    let mut r = String::new();
    let mut i: usize = 0;
    while i < parts.len()
        invariant
            0 <= i <= parts@.len(),
            r@ == spec_join(views(parts@.take(i as int)), sep@),
        decreases parts@.len() - i,
    {
        assert(views(parts@.take(i + 1)).drop_last() =~= views(parts@.take(i as int)));
        if i > 0 {
            r.append(sep);
        }
        r.append(parts[i].as_str());
        assert(r@ == spec_join(views(parts@.take(i + 1)), sep@)) by {
            if i == 0 {
                assert(views(parts@.take(1)) =~= seq![parts@[0]@]);
            }
        }
        i = i + 1;
    }
    assert(parts@.take(parts@.len() as int) =~= parts@);
    r
}


/// `a` followed by `b`.
pub fn concat2(a: &str, b: &str) -> (r: String)
    ensures
        r@ == a@ + b@,
{
    let mut r = String::from_str(a);
    r.append(b);
    r
}

/// `a`, `b` and `c` one after the other.
pub fn concat3(a: &str, b: &str, c: &str) -> (r: String)
    ensures
        r@ == a@ + b@ + c@,
{
    let mut r = String::from_str(a);
    r.append(b);
    r.append(c);
    r
}

/// Copies a string slice into an owned string.
pub fn owned(a: &str) -> (r: String)
    ensures
        r@ == a@,
{
    String::from_str(a)
}


/// Whether `c` is alphabetic or numeric in Unicode (std `char::is_alphanumeric`).
pub uninterp spec fn is_unicode_alphanumeric(c: char) -> bool;

/// std `char::is_alphanumeric`: its result is named by `is_unicode_alphanumeric`.
#[verifier::external_body]
pub(crate) fn char_is_alphanumeric(c: char) -> (b: bool)
    ensures
        b == is_unicode_alphanumeric(c),
{
    c.is_alphanumeric()
}

} // verus!
