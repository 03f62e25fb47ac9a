//! Character-level text helpers with exact specifications.

use vstd::prelude::*;
use vstd::string::StrSliceExecFns;

verus! {

/// The Unicode `White_Space` property, which `char::is_whitespace` tests.
pub open spec fn is_space(c: char) -> bool {
    let u = c as u32;
    ||| 0x09 <= u <= 0x0d
    ||| u == 0x20
    ||| u == 0x85
    ||| u == 0xa0
    ||| u == 0x1680
    ||| 0x2000 <= u <= 0x200a
    ||| u == 0x2028
    ||| u == 0x2029
    ||| u == 0x202f
    ||| u == 0x205f
    ||| u == 0x3000
}

/// `s` with trailing white space removed.
pub open spec fn trim_end_of(s: Seq<char>) -> Seq<char>
    decreases s.len(),
{
    if s.len() > 0 && is_space(s.last()) {
        trim_end_of(s.drop_last())
    } else {
        s
    }
}

/// `s` with leading white space removed.
pub open spec fn trim_start_of(s: Seq<char>) -> Seq<char>
    decreases s.len(),
{
    if s.len() > 0 && is_space(s[0]) {
        trim_start_of(s.drop_first())
    } else {
        s
    }
}

/// `s` with leading and trailing white space removed.
pub open spec fn trim_of(s: Seq<char>) -> Seq<char> {
    trim_start_of(trim_end_of(s))
}

pub open spec fn is_prefix_of(p: Seq<char>, s: Seq<char>) -> bool {
    p.len() <= s.len() && s.subrange(0, p.len() as int) == p
}

/// `p` occurs in `s` as a contiguous block starting at `i`.
pub open spec fn occurs_at(s: Seq<char>, p: Seq<char>, i: int) -> bool {
    0 <= i && i + p.len() <= s.len() && s.subrange(i, i + p.len()) == p
}

pub open spec fn contains_text(s: Seq<char>, p: Seq<char>) -> bool {
    exists|i: int| occurs_at(s, p, i)
}

/// Tests whether `c` has the Unicode `White_Space` property.
pub fn is_space_char(c: char) -> (r: bool)
    ensures
        r == is_space(c),
{
    let u = c as u32;
    (0x09 <= u && u <= 0x0d) || u == 0x20 || u == 0x85 || u == 0xa0 || u == 0x1680 || (0x2000
        <= u && u <= 0x200a) || u == 0x2028 || u == 0x2029 || u == 0x202f || u == 0x205f || u
        == 0x3000
}

/// The characters of `s`, one per element.
pub fn chars_of(s: &str) -> (v: Vec<char>)
    ensures
        v@ == s@,
{
    let n = s.unicode_len();
    let mut v: Vec<char> = Vec::new();
    let mut i: usize = 0;
    while i < n
        invariant
            n == s@.len(),
            i <= n,
            v@ == s@.subrange(0, i as int),
        decreases n - i,
    {
        v.push(s.get_char(i));
        i = i + 1;
    }
    assert(v@ =~= s@);
    v
}

/// Equality of two string slices, character by character.
pub fn str_eq(a: &str, b: &str) -> (r: bool)
    ensures
        r == (a@ == b@),
{
    let x = chars_of(a);
    let y = chars_of(b);
    if x.len() != y.len() {
        return false;
    }
    let mut i: usize = 0;
    while i < x.len()
        invariant
            x@ == a@,
            y@ == b@,
            x.len() == y.len(),
            i <= x.len(),
            x@.subrange(0, i as int) == y@.subrange(0, i as int),
        decreases x.len() - i,
    {
        if x[i] != y[i] {
            assert(a@[i as int] != b@[i as int]);
            return false;
        }
        assert(x@.subrange(0, i + 1) =~= x@.subrange(0, i as int).push(x@[i as int]));
        assert(y@.subrange(0, i + 1) =~= y@.subrange(0, i as int).push(y@[i as int]));
        i = i + 1;
    }
    assert(x@ =~= x@.subrange(0, x.len() as int));
    assert(y@ =~= y@.subrange(0, y.len() as int));
    true
}

/// Whether `p` occurs in `v` starting at position `i`.
fn chars_match_at(v: &Vec<char>, p: &Vec<char>, i: usize) -> (r: bool)
    ensures
        r == occurs_at(v@, p@, i as int),
{
    if i > v.len() || p.len() > v.len() - i {
        return false;
    }
    let mut k: usize = 0;
    while k < p.len()
        invariant
            i + p.len() <= v.len(),
            k <= p.len(),
            v@.subrange(i as int, i + k) == p@.subrange(0, k as int),
        decreases p.len() - k,
    {
        if v[i + k] != p[k] {
            assert(v@.subrange(i as int, i + p.len())[k as int] != p@[k as int]);
            return false;
        }
        assert(v@.subrange(i as int, i + k + 1) =~= v@.subrange(i as int, i + k).push(
            v@[i + k],
        ));
        assert(p@.subrange(0, k + 1) =~= p@.subrange(0, k as int).push(p@[k as int]));
        k = k + 1;
    }
    assert(p@ =~= p@.subrange(0, p.len() as int));
    true
}

/// Whether `s` starts with `prefix`.
pub fn starts_with(s: &str, prefix: &str) -> (r: bool)
    ensures
        r == is_prefix_of(prefix@, s@),
{
    let v = chars_of(s);
    let p = chars_of(prefix);
    chars_match_at(&v, &p, 0)
}

/// Whether `pattern` occurs anywhere in `s`.
pub fn contains(s: &str, pattern: &str) -> (r: bool)
    ensures
        r == contains_text(s@, pattern@),
{
    let v = chars_of(s);
    let p = chars_of(pattern);
    if p.len() > v.len() {
        assert forall|i: int| !occurs_at(s@, pattern@, i) by {}
        return false;
    }
    if p.len() == 0 {
        assert(s@.subrange(0, 0) =~= pattern@);
        assert(occurs_at(s@, pattern@, 0));
        return true;
    }
    let last = v.len() - p.len();
    let mut i: usize = 0;
    while i <= last
        invariant
            v@ == s@,
            p@ == pattern@,
            last == v.len() - p.len(),
            last < v.len(),
            i <= last + 1,
            forall|j: int| 0 <= j < i ==> !occurs_at(s@, pattern@, j),
        decreases last + 1 - i,
    {
        if chars_match_at(&v, &p, i) {
            return true;
        }
        i = i + 1;
    }
    assert forall|j: int| !occurs_at(s@, pattern@, j) by {
        if 0 <= j && j + pattern@.len() <= s@.len() {
            assert(j < i);
        }
    }
    false
}

/// `s` without `prefix`, when `s` starts with it.
pub fn strip_prefix<'a>(s: &'a str, prefix: &str) -> (r: Option<&'a str>)
    ensures
        r is Some <==> is_prefix_of(prefix@, s@),
        r matches Some(rest) ==> rest@ == s@.subrange(prefix@.len() as int, s@.len() as int),
{
    if starts_with(s, prefix) {
        let n = s.unicode_len();
        let k = prefix.unicode_len();
        Some(s.substring_char(k, n))
    } else {
        None
    }
}

proof fn lemma_trim_end_step(s: Seq<char>, end: int)
    requires
        0 < end <= s.len(),
        is_space(s[end - 1]),
    ensures
        trim_end_of(s.subrange(0, end)) == trim_end_of(s.subrange(0, end - 1)),
{
    assert(s.subrange(0, end).drop_last() =~= s.subrange(0, end - 1));
}

proof fn lemma_trim_start_step(s: Seq<char>, start: int)
    requires
        0 <= start < s.len(),
        is_space(s[start]),
    ensures
        trim_start_of(s.subrange(start, s.len() as int)) == trim_start_of(
            s.subrange(start + 1, s.len() as int),
        ),
{
    assert(s.subrange(start, s.len() as int).drop_first() =~= s.subrange(
        start + 1,
        s.len() as int,
    ));
}

/// The number of characters that remain when trailing white space is cut off.
fn trimmed_end(v: &Vec<char>) -> (end: usize)
    ensures
        end <= v.len(),
        trim_end_of(v@) == v@.subrange(0, end as int),
{
    let mut end = v.len();
    assert(v@.subrange(0, end as int) =~= v@);
    while end > 0 && is_space_char(v[end - 1])
        invariant
            end <= v.len(),
            trim_end_of(v@) == trim_end_of(v@.subrange(0, end as int)),
        decreases end,
    {
        proof {
            lemma_trim_end_step(v@, end as int);
        }
        end = end - 1;
    }
    end
}

/// `s` with trailing white space removed, as `str::trim_end` does.
pub fn trim_end(s: &str) -> (r: &str)
    ensures
        r@ == trim_end_of(s@),
{
    let v = chars_of(s);
    let end = trimmed_end(&v);
    s.substring_char(0, end)
}

/// `s` with leading and trailing white space removed, as `str::trim` does.
pub fn trim(s: &str) -> (r: &str)
    ensures
        r@ == trim_of(s@),
{
    let v = chars_of(s);
    let end = trimmed_end(&v);
    let ghost t = v@.subrange(0, end as int);
    let mut start: usize = 0;
    assert(t.subrange(0, t.len() as int) =~= t);
    while start < end && is_space_char(v[start])
        invariant
            start <= end,
            end <= v.len(),
            t == v@.subrange(0, end as int),
            trim_start_of(t) == trim_start_of(t.subrange(start as int, t.len() as int)),
        decreases end - start,
    {
        proof {
            lemma_trim_start_step(t, start as int);
        }
        start = start + 1;
    }
    assert(t.subrange(start as int, t.len() as int) =~= s@.subrange(start as int, end as int));
    s.substring_char(start, end)
}

/// Appends one character, as `String::push` does.
#[verifier::external_body]
pub(crate) fn push_char(s: &mut String, c: char)
    ensures
        final(s)@ == old(s)@.push(c),
{
    s.push(c);
}

/// The decimal digit `d` as a character.
pub open spec fn digit_char(d: int) -> char {
    (d + 48) as char
}

/// Decimal notation of a natural number, with no leading zeros.
pub open spec fn nat_decimal(n: nat) -> Seq<char>
    decreases n,
{
    if n < 10 {
        seq![digit_char(n as int)]
    } else {
        nat_decimal(n / 10).push(digit_char((n % 10) as int))
    }
}

/// Decimal notation of an integer, with a leading `-` when it is negative.
pub open spec fn int_decimal(i: int) -> Seq<char> {
    if i < 0 {
        seq!['-'] + nat_decimal((-i) as nat)
    } else {
        nat_decimal(i as nat)
    }
}

fn digit_to_char(d: u8) -> (c: char)
    requires
        d < 10,
    ensures
        c == digit_char(d as int),
{
    match d {
        0 => '0',
        1 => '1',
        2 => '2',
        3 => '3',
        4 => '4',
        5 => '5',
        6 => '6',
        7 => '7',
        8 => '8',
        _ => '9',
    }
}

fn append_decimal(out: &mut String, n: u128)
    ensures
        final(out)@ == old(out)@ + nat_decimal(n as nat),
    decreases n,
{
    if n >= 10 {
        append_decimal(out, n / 10);
    }
    let d = (n % 10) as u8;
    push_char(out, digit_to_char(d));
    proof {
        if n < 10 {
            assert(nat_decimal(n as nat) =~= seq![digit_char(n as int)]);
        }
    }
}

/// Decimal notation of `i`, as `to_string` writes an integer.
pub fn decimal(i: i128) -> (s: String)
    ensures
        s@ == int_decimal(i as int),
{
    let mut s = String::new();
    if i < 0 {
        push_char(&mut s, '-');
        let magnitude: u128 = if i == i128::MIN {
            (i128::MAX as u128) + 1
        } else {
            (-i) as u128
        };
        assert(magnitude as int == -(i as int));
        append_decimal(&mut s, magnitude);
    } else {
        append_decimal(&mut s, i as u128);
    }
    s
}


pub open spec fn is_digit(c: char) -> bool {
    '0' <= c <= '9'
}

pub open spec fn digit_value(c: char) -> int {
    (c as u32) - 48
}

pub open spec fn all_digits(s: Seq<char>) -> bool {
    forall|i: int| 0 <= i < s.len() ==> is_digit(#[trigger] s[i])
}

/// The number that a string of decimal digits denotes.
pub open spec fn digits_value(s: Seq<char>) -> int
    decreases s.len(),
{
    if s.len() == 0 {
        0
    } else {
        digits_value(s.drop_last()) * 10 + digit_value(s.last())
    }
}

/// What `str::parse::<i64>` gives: an optional `+` or `-`, then one or more
/// decimal digits, whose value must fit in an `i64`.
pub open spec fn decimal_i64_value(s: Seq<char>) -> Option<int> {
    let neg = s.len() > 0 && s[0] == '-';
    let plus = s.len() > 0 && s[0] == '+';
    let body = if neg || plus {
        s.drop_first()
    } else {
        s
    };
    if body.len() == 0 || !all_digits(body) {
        None
    } else {
        let v = if neg {
            -digits_value(body)
        } else {
            digits_value(body)
        };
        if i64::MIN <= v <= i64::MAX {
            Some(v)
        } else {
            None
        }
    }
}

proof fn lemma_digits_value_nonneg(s: Seq<char>)
    requires
        all_digits(s),
    ensures
        digits_value(s) >= 0,
    decreases s.len(),
{
    if s.len() > 0 {
        assert(is_digit(s[s.len() - 1]));
        lemma_digits_value_nonneg(s.drop_last());
    }
}

proof fn lemma_digits_value_grows(s: Seq<char>, k: int)
    requires
        all_digits(s),
        0 <= k <= s.len(),
    ensures
        digits_value(s) >= digits_value(s.subrange(0, k)),
    decreases s.len() - k,
{
    if k < s.len() {
        lemma_digits_value_grows(s, k + 1);
        let p = s.subrange(0, k + 1);
        assert(p.drop_last() =~= s.subrange(0, k));
        assert(is_digit(p.last()));
        assert(all_digits(s.subrange(0, k)));
        lemma_digits_value_nonneg(s.subrange(0, k));
    } else {
        assert(s.subrange(0, k) =~= s);
    }
}

/// Parses a decimal `i64` exactly as `str::parse::<i64>` accepts it.
pub fn parse_i64(s: &str) -> (r: Option<i64>)
    ensures
        match r {
            Some(v) => decimal_i64_value(s@) == Some(v as int),
            None => decimal_i64_value(s@) is None,
        },
{
    let v = chars_of(s);
    let n = v.len();
    let neg = n > 0 && v[0] == '-';
    let plus = n > 0 && v[0] == '+';
    let start: usize = if neg || plus {
        1
    } else {
        0
    };
    let ghost body = if neg || plus {
        s@.drop_first()
    } else {
        s@
    };
    assert(body =~= s@.subrange(start as int, n as int));
    if start == n {
        return None;
    }
    let limit: u128 = 9223372036854775808;
    let mut acc: u128 = 0;
    let mut i: usize = start;
    assert(body.subrange(0, 0) =~= Seq::<char>::empty());
    while i < n
        invariant
            v@ == s@,
            n == v.len(),
            start <= i <= n,
            body == s@.subrange(start as int, n as int),
            neg == (s@.len() > 0 && s@[0] == '-'),
            plus == (s@.len() > 0 && s@[0] == '+'),
            start == (if neg || plus {
                1usize
            } else {
                0usize
            }),
            body == (if neg || plus {
                s@.drop_first()
            } else {
                s@
            }),
            limit == 9223372036854775808u128,
            acc <= limit,
            acc == digits_value(body.subrange(0, i - start)),
            all_digits(body.subrange(0, i - start)),
        decreases n - i,
    {
        let c = v[i];
        if !('0' <= c && c <= '9') {
            assert(body[i - start] == c);
            assert(!is_digit(body[i - start]));
            return None;
        }
        let d = (c as u32 - 48) as u128;
        let ghost p = body.subrange(0, i + 1 - start);
        assert(p.drop_last() =~= body.subrange(0, i - start));
        assert(p.last() == c);
        acc = acc * 10 + d;
        assert(all_digits(p));
        if acc > limit {
            proof {
                if all_digits(body) {
                    lemma_digits_value_grows(body, i + 1 - start);
                }
            }
            return None;
        }
        i = i + 1;
    }
    assert(body.subrange(0, n - start) =~= body);
    if neg {
        if acc == limit {
            Some(-9223372036854775808i64)
        } else {
            Some(-(acc as i64))
        }
    } else if acc > 9223372036854775807 {
        None
    } else {
        Some(acc as i64)
    }
}

/// The strings of `list`, with `sep` between each two of them.
pub open spec fn joined(list: Seq<Seq<char>>, sep: Seq<char>) -> Seq<char>
    decreases list.len(),
{
    if list.len() == 0 {
        Seq::empty()
    } else if list.len() == 1 {
        list[0]
    } else {
        joined(list.drop_last(), sep) + sep + list.last()
    }
}

/// The views of a list of string slices.
pub open spec fn str_views(list: Seq<&str>) -> Seq<Seq<char>> {
    list.map_values(|x: &str| x@)
}

/// Joins `list` with `sep`, as `<[&str]>::join` does.
pub fn join(list: &[&str], sep: &str) -> (r: String)
    ensures
        r@ == joined(str_views(list@), sep@),
{
    let ghost views = str_views(list@);
    let mut r = String::new();
    let mut i: usize = 0;
    assert(views.take(0) =~= Seq::<Seq<char>>::empty());
    while i < list.len()
        invariant
            i <= list.len(),
            views == str_views(list@),
            r@ == joined(views.take(i as int), sep@),
        decreases list.len() - i,
    {
        let ghost before = r@;
        assert(views.take(i + 1).drop_last() =~= views.take(i as int));
        assert(views.take(i + 1).last() == list@[i as int]@);
        if i > 0 {
            r.append(sep);
        } else {
            assert(views.take(1) =~= seq![list@[0]@]);
            assert(before =~= Seq::<char>::empty());
        }
        r.append(list[i]);
        i = i + 1;
    }
    assert(views.take(list.len() as int) =~= views);
    r
}


proof fn lemma_nat_decimal_digits(n: nat)
    ensures
        nat_decimal(n).len() > 0,
        all_digits(nat_decimal(n)),
        digits_value(nat_decimal(n)) == n,
    decreases n,
{
    if n < 10 {
        let s = nat_decimal(n);
        assert(s =~= seq![digit_char(n as int)]);
        assert(s.drop_last() =~= Seq::<char>::empty());
        assert(digits_value(Seq::<char>::empty()) == 0);
        assert(digit_value(digit_char(n as int)) == n);
    } else {
        lemma_nat_decimal_digits(n / 10);
        let s = nat_decimal(n);
        let d = digit_char((n % 10) as int);
        assert(s.drop_last() =~= nat_decimal(n / 10));
        assert(s.last() == d);
        assert(digit_value(d) == n % 10);
        assert forall|i: int| 0 <= i < s.len() implies is_digit(#[trigger] s[i]) by {
            if i < s.len() - 1 {
                assert(s[i] == nat_decimal(n / 10)[i]);
            }
        }
    }
}

/// Decimal text parses back to the number it was written from: what
/// `to_string` writes of an `i64`, `str::parse::<i64>` reads as the same value.
pub proof fn lemma_decimal_round_trip(v: i64)
    ensures
        decimal_i64_value(int_decimal(v as int)) == Some(v as int),
{
    if v < 0 {
        let m = (-(v as int)) as nat;
        lemma_nat_decimal_digits(m);
        let s = int_decimal(v as int);
        assert(s[0] == '-');
        assert(s.drop_first() =~= nat_decimal(m));
    } else {
        let m = v as nat;
        lemma_nat_decimal_digits(m);
        let s = int_decimal(v as int);
        assert(is_digit(s[0]));
    }
}

} // verus!
