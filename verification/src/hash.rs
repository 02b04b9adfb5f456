//! Reading the field/value pairs of a Redis hash.

use crate::ops::pairs_view;
use crate::text::str_eq;
use vstd::prelude::*;

verus! {

/// The value of field `name` among `fields`: the last pair with that name wins, as it does
/// when the pairs are collected into a `HashMap`.
pub open spec fn lookup(fields: Seq<(Seq<char>, Seq<char>)>, name: Seq<char>) -> Option<Seq<char>>
    decreases fields.len(),
{
    if fields.len() == 0 {
        None
    } else if fields.last().0 == name {
        Some(fields.last().1)
    } else {
        lookup(fields.drop_last(), name)
    }
}

/// The value of field `name` among the pairs of a hash, if it has that field.
pub fn hash_get<'a>(fields: &'a Vec<(String, String)>, name: &str) -> (r: Option<&'a String>)
    ensures
        match r {
            Some(v) => lookup(pairs_view(fields@), name@) == Some(v@),
            None => lookup(pairs_view(fields@), name@) is None,
        },
{
    let ghost pv = pairs_view(fields@);
    let mut i: usize = fields.len();
    assert(pv.take(i as int) =~= pv);
    while i > 0
        invariant
            i <= fields.len(),
            pv == pairs_view(fields@),
            lookup(pv, name@) == lookup(pv.take(i as int), name@),
        decreases i,
    {
        let ghost t = pv.take(i as int);
        assert(t.drop_last() =~= pv.take(i - 1));
        assert(t.last() == pv[i - 1]);
        if str_eq(fields[i - 1].0.as_str(), name) {
            return Some(&fields[i - 1].1);
        }
        i = i - 1;
    }
    assert(pv.take(0) =~= Seq::<(Seq<char>, Seq<char>)>::empty());
    None
}

} // verus!
