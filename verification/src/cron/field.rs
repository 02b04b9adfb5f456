//! One field of a cron expression: its grammar, the values it allows, and reading it into
//! a mask of those values.
//!
//! A field is a comma-separated list of items. An item is a range with an optional step
//! `/n`; a range is `*` (every value), a number `a`, or `a-b`. With a step, a single
//! number `a` runs from `a` to the field's last value.

use crate::text::{
    all_digits, digits_value, owned, parse_u64, split_all, split_first, split_on, split_once,
    str_eq, strings_view, unsigned_digits,
};
use vstd::prelude::*;

verus! {

/// A cron number: one or more ASCII digits, read in decimal.
pub open spec fn cron_number(s: Seq<char>) -> Option<int> {
    if s.len() > 0 && all_digits(s) {
        Some(digits_value(s) as int)
    } else {
        None
    }
}

/// The first and last value that the range part `r` of an item names, in a field whose
/// values run from `lo` to `hi`: all of them for `*`, `a` to `b` for `a-b`, and for a
/// single number `a` either `a` alone or, where a step follows, `a` to `hi`.
pub open spec fn range_bounds(r: Seq<char>, lo: int, hi: int, stepped: bool) -> Option<(int, int)> {
    if r == "*"@ {
        Some((lo, hi))
    } else {
        match split_first(r, '-') {
            Some((a, b)) => match cron_number(a) {
                Some(x) => match cron_number(b) {
                    Some(y) => Some((x, y)),
                    None => None,
                },
                None => None,
            },
            None => match cron_number(r) {
                Some(x) => Some((x, if stepped { hi } else { x })),
                None => None,
            },
        }
    }
}

/// The span `(first, last, step)` that one item of a field denotes, for a field whose
/// values run from `lo` to `hi`; `None` where the item is malformed, leaves that range,
/// has its first value above its last, or has a step outside `1..=hi`.
pub open spec fn item_span(item: Seq<char>, lo: int, hi: int) -> Option<(int, int, int)> {
    let stepped = split_first(item, '/') is Some;
    let r = match split_first(item, '/') {
        Some((r, _)) => r,
        None => item,
    };
    let step = match split_first(item, '/') {
        Some((_, s)) => cron_number(s),
        None => Some(1int),
    };
    match range_bounds(r, lo, hi, stepped) {
        Some((a, b)) => match step {
            Some(st) => if lo <= a && a <= b && b <= hi && 1 <= st && st <= hi {
                Some((a, b, st))
            } else {
                None
            },
            None => None,
        },
        None => None,
    }
}

/// `x` lies in span `sp`: between its first and last value, a whole number of steps from
/// the first.
pub open spec fn span_has(sp: (int, int, int), x: int) -> bool {
    sp.0 <= x <= sp.1 && (x - sp.0) % sp.2 == 0
}

/// Some item of `items` allows `x`.
pub open spec fn items_allow(items: Seq<Seq<char>>, lo: int, hi: int, x: int) -> bool
    decreases items.len(),
{
    if items.len() == 0 {
        false
    } else {
        items_allow(items.drop_last(), lo, hi, x) || span_has(
            item_span(items.last(), lo, hi).unwrap(),
            x,
        )
    }
}

/// The comma-separated items of field `f`.
pub open spec fn field_items(f: Seq<char>) -> Seq<Seq<char>> {
    split_on(f, ',')
}

/// Every item of field `f` is well formed for values `lo..=hi`.
pub open spec fn field_valid(f: Seq<char>, lo: int, hi: int) -> bool {
    forall|j: int|
        0 <= j < field_items(f).len() ==> (#[trigger] item_span(field_items(f)[j], lo, hi)) is Some
}

/// For each value from 0 to `hi`, whether field `f` allows it.
pub open spec fn field_mask(f: Seq<char>, lo: int, hi: int) -> Seq<bool> {
    Seq::new((hi + 1) as nat, |x: int| items_allow(field_items(f), lo, hi, x))
}

/// Reads a cron number no larger than `max`; `None` where `s` is no cron number or a
/// larger one.
fn number_at_most(s: &str, max: u64) -> (r: Option<u64>)
    ensures
        r is Some <==> (cron_number(s@) is Some && cron_number(s@).unwrap() <= max),
        r matches Some(v) ==> cron_number(s@) == Some(v as int),
{
    if s.unicode_len() == 0 {
        return None;
    }
    let c = s.get_char(0);
    if !('0' <= c && c <= '9') {
        assert(!all_digits(s@));
        return None;
    }
    assert(unsigned_digits(s@) == s@);
    match parse_u64(s) {
        Some(v) => if v <= max {
            Some(v)
        } else {
            None
        },
        None => None,
    }
}

/// Reads one item of a field whose values run from `lo` to `hi` into its span.
fn item_span_of(item: &str, lo: u64, hi: u64) -> (r: Option<(u64, u64, u64)>)
    requires
        lo <= hi <= 59,
        1 <= hi,
    ensures
        r is Some <==> item_span(item@, lo as int, hi as int) is Some,
        r matches Some(sp) ==> item_span(item@, lo as int, hi as int) == Some(
            (sp.0 as int, sp.1 as int, sp.2 as int),
        ),
{
    proof {
        reveal_strlit("*");
    }
    let (range, step, stepped) = match split_once(item, '/') {
        Some((rtext, stext)) => {
            let st = number_at_most(stext.as_str(), hi);
            (rtext, st, true)
        },
        None => (owned(item), Some(1u64), false),
    };
    let step = match step {
        Some(st) => st,
        None => return None,
    };
    if step < 1 {
        return None;
    }
    let (a, b) = if str_eq(range.as_str(), "*") {
        (lo, hi)
    } else {
        match split_once(range.as_str(), '-') {
            Some((atext, btext)) => {
                let a = match number_at_most(atext.as_str(), hi) {
                    Some(v) => v,
                    None => return None,
                };
                let b = match number_at_most(btext.as_str(), hi) {
                    Some(v) => v,
                    None => return None,
                };
                (a, b)
            },
            None => {
                let a = match number_at_most(range.as_str(), hi) {
                    Some(v) => v,
                    None => return None,
                };
                (a, if stepped {
                    hi
                } else {
                    a
                })
            },
        }
    };
    if lo <= a && a <= b {
        Some((a, b, step))
    } else {
        None
    }
}

/// Reads field `f`, whose values run from `lo` to `hi`, into the mask of the values it
/// allows; `None` where an item of it is malformed.
pub fn field_mask_of(f: &str, lo: u64, hi: u64) -> (r: Option<Vec<bool>>)
    requires
        lo <= hi <= 59,
        1 <= hi,
    ensures
        r is Some <==> field_valid(f@, lo as int, hi as int),
        r matches Some(m) ==> m@ == field_mask(f@, lo as int, hi as int),
{
    let items = split_all(f, ',');
    let ghost iv = strings_view(items@);
    let mut mask: Vec<bool> = Vec::new();
    let mut x: u64 = 0;
    while x <= hi
        invariant
            x <= hi + 1,
            hi <= 59,
            mask@.len() == x,
            forall|y: int| 0 <= y < x ==> !mask@[y],
        decreases hi + 1 - x,
    {
        mask.push(false);
        x = x + 1;
    }
    let mut i: usize = 0;
    while i < items.len()
        invariant
            lo <= hi <= 59,
            1 <= hi,
            iv == field_items(f@),
            iv == strings_view(items@),
            iv.len() == items@.len(),
            i <= items.len(),
            mask@.len() == hi + 1,
            forall|j: int| 0 <= j < i ==> (#[trigger] item_span(iv[j], lo as int, hi as int)) is Some,
            forall|y: int|
                0 <= y <= hi ==> mask@[y] == items_allow(iv.take(i as int), lo as int, hi as int, y),
        decreases items.len() - i,
    {
        assert(iv[i as int] == items@[i as int]@);
        let sp = match item_span_of(items[i].as_str(), lo, hi) {
            Some(sp) => sp,
            None => {
                assert(item_span(iv[i as int], lo as int, hi as int) is None);
                return None;
            },
        };
        let (a, b, st) = sp;
        let ghost next = iv.take(i + 1);
        assert(next.drop_last() =~= iv.take(i as int));
        assert(next.last() == iv[i as int]);
        let mut y: u64 = 0;
        while y <= hi
            invariant
                lo <= hi <= 59,
                y <= hi + 1,
                next.len() == i + 1,
                a <= b,
                st >= 1,
                mask@.len() == hi + 1,
                next.drop_last() == iv.take(i as int),
                item_span(next.last(), lo as int, hi as int) == Some((a as int, b as int, st as int)),
                forall|z: int|
                    0 <= z < y ==> mask@[z] == items_allow(next, lo as int, hi as int, z),
                forall|z: int|
                    y <= z <= hi ==> mask@[z] == items_allow(iv.take(i as int), lo as int, hi as int, z),
            decreases hi + 1 - y,
        {
            let here = a <= y && y <= b && (y - a) % st == 0;
            assert(here == span_has((a as int, b as int, st as int), y as int));
            if here {
                mask.set(y as usize, true);
            }
            y = y + 1;
        }
        i = i + 1;
    }
    assert(iv.take(i as int) =~= iv);
    assert(mask@ =~= field_mask(f@, lo as int, hi as int));
    Some(mask)
}

/// A field `*` allows every value of its range.
pub proof fn law_star_allows_all(lo: int, hi: int, x: int)
    requires
        0 <= lo <= x <= hi,
        1 <= hi,
    ensures
        field_mask("*"@, lo, hi)[x],
{
    reveal_strlit("*");
    let f = "*"@;
    assert(f =~= seq!['*']);
    assert(f.drop_last() =~= Seq::<char>::empty());
    assert(split_on(f.drop_last(), ',') == seq![Seq::<char>::empty()]);
    assert(Seq::<char>::empty().push('*') =~= f);
    assert(field_items(f) =~= seq![f]);
    assert(!f.contains('/'));
    assert(!f.contains('-'));
    assert(item_span(f, lo, hi) == Some((lo, hi, 1int)));
    let items = field_items(f);
    assert(items.drop_last() =~= Seq::<Seq<char>>::empty());
    assert(items_allow(items, lo, hi, x));
}

} // verus!
