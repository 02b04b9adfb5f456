//! Text helpers on `str` and `String` with contracts over their `char` views.

use vstd::prelude::*;
use vstd::string::*;

verus! {

/// Unicode `White_Space` code points, the set that `char::is_whitespace` tests.
pub open spec fn is_ws(c: char) -> bool {
    let u = c as u32;
    ||| (0x09 <= u && u <= 0x0d)
    ||| u == 0x20
    ||| u == 0x85
    ||| u == 0xa0
    ||| u == 0x1680
    ||| (0x2000 <= u && u <= 0x200a)
    ||| u == 0x2028
    ||| u == 0x2029
    ||| u == 0x202f
    ||| u == 0x205f
    ||| u == 0x3000
}

/// Whether `c` is white space in the sense of Unicode's `White_Space` property.
pub fn is_whitespace(c: char) -> (r: bool)
    ensures
        r == is_ws(c),
{
    let u = c as u32;
    (0x09 <= u && u <= 0x0d) || u == 0x20 || u == 0x85 || u == 0xa0 || u == 0x1680 || (0x2000
        <= u && u <= 0x200a) || u == 0x2028 || u == 0x2029 || u == 0x202f || u == 0x205f || u
        == 0x3000
}

/// Character-wise equality of two string slices.
pub fn str_eq(a: &str, b: &str) -> (r: bool)
    ensures
        r == (a@ == b@),
{
    let n = a.unicode_len();
    if n != b.unicode_len() {
        return false;
    }
    let mut i: usize = 0;
    while i < n
        invariant
            n == a@.len(),
            n == b@.len(),
            i <= n,
            forall|j: int| 0 <= j < i ==> a@[j] == b@[j],
        decreases n - i,
    {
        if a.get_char(i) != b.get_char(i) {
            return false;
        }
        i = i + 1;
    }
    assert(a@ =~= b@);
    true
}

/// An owned copy of a string slice.
pub fn owned(s: &str) -> (r: String)
    ensures
        r@ == s@,
{
    String::from_str(s)
}

/// The concatenation of two string slices.
pub fn joined(a: &str, b: &str) -> (r: String)
    ensures
        r@ == a@ + b@,
{
    let mut r = String::from_str(a);
    r.append(b);
    r
}

/// The ASCII digit for `d` (taken modulo nothing: `d` is expected below ten).
pub open spec fn digit_char(d: nat) -> char {
    if d == 0 { '0' } else if d == 1 { '1' } else if d == 2 { '2' } else if d == 3 { '3' }
    else if d == 4 { '4' } else if d == 5 { '5' } else if d == 6 { '6' } else if d == 7 { '7' }
    else if d == 8 { '8' } else { '9' }
}

/// Decimal notation of a natural number, without sign or leading zeros.
pub open spec fn decimal(n: nat) -> Seq<char>
    decreases n,
{
    if n < 10 {
        seq![digit_char(n)]
    } else {
        decimal(n / 10).push(digit_char(n % 10))
    }
}

/// Decimal notation of an integer, with a leading `-` when it is negative.
pub open spec fn decimal_int(i: int) -> Seq<char> {
    if i < 0 {
        seq!['-'] + decimal((-i) as nat)
    } else {
        decimal(i as nat)
    }
}

/// The one-character string of a decimal digit.
fn digit_str(d: u64) -> (r: &'static str)
    requires
        d < 10,
    ensures
        r@ == seq![digit_char(d as nat)],
{
    let r = if d == 0 {
        proof { reveal_strlit("0"); }
        "0"
    } else if d == 1 {
        proof { reveal_strlit("1"); }
        "1"
    } else if d == 2 {
        proof { reveal_strlit("2"); }
        "2"
    } else if d == 3 {
        proof { reveal_strlit("3"); }
        "3"
    } else if d == 4 {
        proof { reveal_strlit("4"); }
        "4"
    } else if d == 5 {
        proof { reveal_strlit("5"); }
        "5"
    } else if d == 6 {
        proof { reveal_strlit("6"); }
        "6"
    } else if d == 7 {
        proof { reveal_strlit("7"); }
        "7"
    } else if d == 8 {
        proof { reveal_strlit("8"); }
        "8"
    } else {
        proof { reveal_strlit("9"); }
        "9"
    };
    assert(r@ =~= seq![digit_char(d as nat)]);
    r
}

/// Decimal notation of an unsigned integer, as `u64::to_string` writes it.
pub fn format_u64(n: u64) -> (r: String)
    ensures
        r@ == decimal(n as nat),
    decreases n,
{
    if n < 10 {
        owned(digit_str(n))
    } else {
        let mut r = format_u64(n / 10);
        r.append(digit_str(n % 10));
        assert(r@ =~= decimal(n as nat));
        r
    }
}

/// Decimal notation of a signed integer, as `i64::to_string` writes it.
pub fn format_i64(i: i64) -> (r: String)
    ensures
        r@ == decimal_int(i as int),
{
    if i < 0 {
        let mag: u64 = if i == i64::MIN {
            9223372036854775808u64
        } else {
            (-i) as u64
        };
        proof { reveal_strlit("-"); }
        let mut r = owned("-");
        let digits = format_u64(mag);
        r.append(digits.as_str());
        assert(r@ =~= decimal_int(i as int));
        r
    } else {
        format_u64(i as u64)
    }
}

/// `"true"` or `"false"`, as `bool::to_string` writes them.
pub open spec fn bool_text(b: bool) -> Seq<char> {
    if b { "true"@ } else { "false"@ }
}

/// The text of a boolean, as `bool::to_string` writes it.
pub fn format_bool(b: bool) -> (r: String)
    ensures
        r@ == bool_text(b),
{
    if b { owned("true") } else { owned("false") }
}

/// An ASCII decimal digit.
pub open spec fn is_digit(c: char) -> bool {
    '0' <= c && c <= '9'
}

/// The value of an ASCII decimal digit.
pub open spec fn digit_value(c: char) -> nat {
    (c as int - '0' as int) as nat
}

/// The value of a run of decimal digits, most significant first.
pub open spec fn digits_value(s: Seq<char>) -> nat
    decreases s.len(),
{
    if s.len() == 0 {
        0
    } else {
        digits_value(s.drop_last()) * 10 + digit_value(s.last())
    }
}

/// Every character of `s` is an ASCII decimal digit.
pub open spec fn all_digits(s: Seq<char>) -> bool {
    forall|i: int| 0 <= i < s.len() ==> is_digit(#[trigger] s[i])
}

/// The text after an optional leading `+`.
pub open spec fn unsigned_digits(s: Seq<char>) -> Seq<char> {
    if s.len() > 0 && s[0] == '+' {
        s.drop_first()
    } else {
        s
    }
}

/// What `from_str` of an unsigned integer type reads from `s`, before the check that the
/// value fits the type: an optional `+` and then one or more ASCII digits.
pub open spec fn parse_unsigned(s: Seq<char>) -> Option<nat> {
    let d = unsigned_digits(s);
    if d.len() > 0 && all_digits(d) {
        Some(digits_value(d))
    } else {
        None
    }
}

/// The value of a digit run is at least the value of any of its prefixes.
proof fn lemma_digits_value_prefix(s: Seq<char>, k: int)
    requires
        0 <= k <= s.len(),
        all_digits(s),
    ensures
        digits_value(s.take(k)) <= digits_value(s),
    decreases s.len(),
{
    if k < s.len() {
        assert(all_digits(s.drop_last()));
        lemma_digits_value_prefix(s.drop_last(), k);
        assert(s.drop_last().take(k) =~= s.take(k));
    } else {
        assert(s.take(k) =~= s);
    }
}

/// Reads an unsigned decimal number no larger than `max`, the way `from_str` of an
/// unsigned integer type whose largest value is `max` does.
fn parse_bounded(s: &str, max: u64) -> (r: Option<u64>)
    ensures
        r is Some <==> (parse_unsigned(s@) is Some && parse_unsigned(s@).unwrap() <= max),
        r is Some ==> r.unwrap() == parse_unsigned(s@).unwrap(),
{
    let n = s.unicode_len();
    let mut off: usize = 0;
    if n > 0 && s.get_char(0) == '+' {
        off = 1;
    }
    let ghost d = unsigned_digits(s@);
    assert(d =~= s@.subrange(off as int, n as int));
    if off == n {
        return None;
    }
    let mut acc: u64 = 0;
    let mut j: usize = off;
    while j < n
        invariant
            n == s@.len(),
            off <= j <= n,
            off < n,
            d =~= s@.subrange(off as int, n as int),
            d == unsigned_digits(s@),
            all_digits(d.take(j - off)),
            acc as nat == digits_value(d.take(j - off)),
            acc <= max,
        decreases n - j,
    {
        let c = s.get_char(j);
        assert(d[j - off] == c);
        if !('0' <= c && c <= '9') {
            assert(!is_digit(d[j - off]));
            assert(!all_digits(d));
            return None;
        }
        let dv = (c as u32 - '0' as u32) as u64;
        assert(d.take(j - off + 1).drop_last() =~= d.take(j - off));
        assert(d.take(j - off + 1).last() == c);
        let next = match acc.checked_mul(10) {
            Some(m) => m.checked_add(dv),
            None => None,
        };
        match next {
            Some(v) if v <= max => {
                acc = v;
            },
            _ => {
                proof {
                    assert(digits_value(d.take(j - off + 1)) == acc * 10 + dv);
                    assert(digits_value(d.take(j - off + 1)) > max);
                    if all_digits(d) {
                        lemma_digits_value_prefix(d, j - off + 1);
                    }
                }
                return None;
            },
        }
        j = j + 1;
    }
    assert(d.take(j - off) =~= d);
    Some(acc)
}

/// Reads a `u64` the way `str::parse::<u64>` does; `None` where it returns an error.
pub fn parse_u64(s: &str) -> (r: Option<u64>)
    ensures
        r is Some <==> (parse_unsigned(s@) is Some && parse_unsigned(s@).unwrap() <= u64::MAX),
        r is Some ==> r.unwrap() == parse_unsigned(s@).unwrap(),
{
    parse_bounded(s, u64::MAX)
}

/// Reads a `usize` the way `str::parse::<usize>` does; `None` where it returns an error.
pub fn parse_usize(s: &str) -> (r: Option<usize>)
    ensures
        r is Some <==> (parse_unsigned(s@) is Some && parse_unsigned(s@).unwrap() <= usize::MAX),
        r is Some ==> r.unwrap() == parse_unsigned(s@).unwrap(),
{
    match parse_bounded(s, usize::MAX as u64) {
        Some(v) => Some(v as usize),
        None => None,
    }
}

/// The maximal runs of non-white-space characters of `s`, in order: what
/// `split_whitespace()` yields.
pub open spec fn ws_fields(s: Seq<char>) -> Seq<Seq<char>>
    decreases s.len(),
{
    if s.len() == 0 {
        Seq::empty()
    } else {
        let p = ws_fields(s.drop_last());
        let c = s.last();
        if is_ws(c) {
            p
        } else if s.len() == 1 || is_ws(s[s.len() - 2]) {
            p.push(seq![c])
        } else {
            p.update(p.len() - 1, p.last().push(c))
        }
    }
}

/// Splits `s` into its white-space separated fields, as `split_whitespace` does.
pub fn split_fields(s: &str) -> (r: Vec<String>)
    ensures
        strings_view(r@) == ws_fields(s@),
{
    let n = s.unicode_len();
    let mut parts: Vec<String> = Vec::new();
    let mut start: usize = 0;
    let mut in_field = false;
    let mut i: usize = 0;
    assert(s@.take(0) =~= Seq::<char>::empty());
    assert(strings_view(parts@) =~= Seq::<Seq<char>>::empty());
    while i < n
        invariant
            n == s@.len(),
            start <= i <= n,
            in_field == (i > 0 && !is_ws(s@[i - 1])),
            in_field ==> strings_view(parts@).push(s@.subrange(start as int, i as int)) == ws_fields(
                s@.take(i as int),
            ),
            !in_field ==> strings_view(parts@) == ws_fields(s@.take(i as int)),
        decreases n - i,
    {
        let ch = s.get_char(i);
        let ghost t = s@.take(i + 1);
        let ghost before = strings_view(parts@);
        let ghost seg = s@.subrange(start as int, i as int);
        assert(t.drop_last() =~= s@.take(i as int));
        assert(t.last() == ch);
        if is_whitespace(ch) {
            if in_field {
                parts.push(owned(s.substring_char(start, i)));
                assert(strings_view(parts@) =~= before.push(seg));
            }
            in_field = false;
        } else if in_field {
            assert(seg.push(ch) =~= s@.subrange(start as int, (i + 1) as int));
            assert(before.push(seg).update(before.len() as int, seg.push(ch)) =~= before.push(
                seg.push(ch),
            ));
        } else {
            start = i;
            in_field = true;
            assert(s@.subrange(start as int, (i + 1) as int) =~= seq![ch]);
            if i > 0 {
                assert(t[t.len() - 2] == s@[i - 1]);
            }
        }
        i = i + 1;
    }
    assert(s@.take(n as int) =~= s@);
    if in_field {
        let ghost before = strings_view(parts@);
        parts.push(owned(s.substring_char(start, n)));
        assert(strings_view(parts@) =~= before.push(s@.subrange(start as int, n as int)));
    }
    parts
}

/// `s` starts with `p`.
pub open spec fn has_prefix(s: Seq<char>, p: Seq<char>) -> bool {
    p.len() <= s.len() && s.take(p.len() as int) == p
}

/// The rest of `s` after the prefix `p`, or `None` where `s` does not start with `p`:
/// what `str::strip_prefix` returns.
pub fn strip_prefix<'a>(s: &'a str, p: &str) -> (r: Option<&'a str>)
    ensures
        r is Some <==> has_prefix(s@, p@),
        r is Some ==> r.unwrap()@ == s@.skip(p@.len() as int),
{
    let n = s.unicode_len();
    let m = p.unicode_len();
    if m > n {
        return None;
    }
    let head = s.substring_char(0, m);
    if str_eq(head, p) {
        Some(s.substring_char(m, n))
    } else {
        None
    }
}

/// The text before the first `c` in `s` and the text after it, or `None` where `s` holds
/// no `c`.
pub open spec fn split_first(s: Seq<char>, c: char) -> Option<(Seq<char>, Seq<char>)> {
    if s.contains(c) {
        let i = choose|i: int| 0 <= i < s.len() && s[i] == c && !s.take(i).contains(c);
        Some((s.take(i), s.skip(i + 1)))
    } else {
        None
    }
}

/// Where `s` is `a`, `c` and `b` with no `c` in `a`, its first split at `c` is `(a, b)`.
proof fn lemma_split_first(s: Seq<char>, c: char, a: Seq<char>, b: Seq<char>)
    requires
        !a.contains(c),
        s == a + seq![c] + b,
    ensures
        split_first(s, c) == Some((a, b)),
{
    let k = a.len() as int;
    assert(s[k] == c);
    assert(s.take(k) =~= a);
    assert(0 <= k < s.len() && s[k] == c && !s.take(k).contains(c));
    assert(s.contains(c));
    assert forall|j: int| 0 <= j < s.len() && s[j] == c && !s.take(j).contains(c) implies j == k by {
        if j < k {
            assert(a[j] == c);
            assert(a.contains(c));
        }
        if j > k {
            assert(s.take(j)[k] == c);
            assert(s.take(j).contains(c));
        }
    }
    assert(s.skip(k + 1) =~= b);
    assert(s.take(k) == a);
}

/// Splits `s` at its first `c`: the text before it and the text after it, as
/// `splitn(2, c)` yields them when it yields two parts.
pub fn split_once(s: &str, c: char) -> (r: Option<(String, String)>)
    ensures
        r is None <==> !s@.contains(c),
        r matches Some(parts) ==> {
            &&& !parts.0@.contains(c)
            &&& s@ == parts.0@ + seq![c] + parts.1@
            &&& split_first(s@, c) == Some((parts.0@, parts.1@))
        },
        r is None ==> split_first(s@, c) is None,
{
    let n = s.unicode_len();
    let mut i: usize = 0;
    while i < n
        invariant
            n == s@.len(),
            i <= n,
            forall|j: int| 0 <= j < i ==> s@[j] != c,
        decreases n - i,
    {
        if s.get_char(i) == c {
            let a = owned(s.substring_char(0, i));
            let b = owned(s.substring_char(i + 1, n));
            assert(s@ =~= a@ + seq![c] + b@);
            proof {
                lemma_split_first(s@, c, a@, b@);
            }
            return Some((a, b));
        }
        i = i + 1;
    }
    None
}

/// The pieces of `s` between occurrences of `c`, as `str::split(c)` yields them: one
/// piece more than there are occurrences, empty pieces included.
pub open spec fn split_on(s: Seq<char>, c: char) -> Seq<Seq<char>>
    decreases s.len(),
{
    if s.len() == 0 {
        seq![Seq::<char>::empty()]
    } else {
        let p = split_on(s.drop_last(), c);
        if s.last() == c {
            p.push(Seq::<char>::empty())
        } else {
            p.update(p.len() - 1, p.last().push(s.last()))
        }
    }
}

/// `split_on` always yields at least one piece.
proof fn lemma_split_on_nonempty(s: Seq<char>, c: char)
    ensures
        split_on(s, c).len() >= 1,
    decreases s.len(),
{
    if s.len() > 0 {
        lemma_split_on_nonempty(s.drop_last(), c);
    }
}

/// The views of a sequence of strings.
pub open spec fn strings_view(v: Seq<String>) -> Seq<Seq<char>> {
    v.map_values(|x: String| x@)
}

/// Splits `s` at every `c`, as `str::split(c)` does.
pub fn split_all(s: &str, c: char) -> (r: Vec<String>)
    ensures
        strings_view(r@) == split_on(s@, c),
{
    let n = s.unicode_len();
    let mut parts: Vec<String> = Vec::new();
    let mut start: usize = 0;
    let mut i: usize = 0;
    assert(s@.take(0) =~= Seq::<char>::empty());
    assert(strings_view(parts@) =~= Seq::<Seq<char>>::empty());
    assert(s@.subrange(0, 0) =~= Seq::<char>::empty());
    assert(strings_view(parts@).push(s@.subrange(0, 0)) =~= split_on(s@.take(0), c));
    while i < n
        invariant
            n == s@.len(),
            start <= i <= n,
            strings_view(parts@).push(s@.subrange(start as int, i as int)) == split_on(
                s@.take(i as int),
                c,
            ),
        decreases n - i,
    {
        let ch = s.get_char(i);
        let ghost t = s@.take(i + 1);
        let ghost before = strings_view(parts@);
        let ghost seg = s@.subrange(start as int, i as int);
        assert(t.drop_last() =~= s@.take(i as int));
        assert(t.last() == ch);
        if ch == c {
            let piece = owned(s.substring_char(start, i));
            parts.push(piece);
            assert(strings_view(parts@) =~= before.push(seg));
            start = i + 1;
            assert(s@.subrange(start as int, (i + 1) as int) =~= Seq::<char>::empty());
            assert(strings_view(parts@).push(s@.subrange(start as int, (i + 1) as int))
                =~= split_on(t, c));
        } else {
            assert(seg.push(ch) =~= s@.subrange(start as int, (i + 1) as int));
            assert(before.push(seg).update(before.len() as int, seg.push(ch)) =~= before.push(
                seg.push(ch),
            ));
            assert(strings_view(parts@).push(s@.subrange(start as int, (i + 1) as int))
                =~= split_on(t, c));
        }
        i = i + 1;
    }
    let ghost before = strings_view(parts@);
    parts.push(owned(s.substring_char(start, n)));
    assert(strings_view(parts@) =~= before.push(s@.subrange(start as int, n as int)));
    assert(s@.take(n as int) =~= s@);
    assert(strings_view(parts@) =~= split_on(s@, c));
    parts
}

} // verus!
