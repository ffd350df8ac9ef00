use vstd::prelude::*;

use crate::handle::{order_of, Handle};

verus! {

/// The values a store holds after `vs` is inserted into a store holding `s`,
/// one `insert` at a time, first to last.
pub open spec fn insert_all<T>(s: Seq<T>, vs: Seq<T>) -> Seq<T>
    decreases vs.len(),
{
    if vs.len() == 0 {
        s
    } else {
        insert_all(s.push(vs[0]), vs.subrange(1, vs.len() as int))
    }
}

/// Inserting values one at a time appends them, in order.
pub proof fn insert_all_appends<T>(s: Seq<T>, vs: Seq<T>)
    ensures
        insert_all(s, vs) == s + vs,
    decreases vs.len(),
{
    if vs.len() > 0 {
        let rest = vs.subrange(1, vs.len() as int);
        insert_all_appends(s.push(vs[0]), rest);
        assert(s.push(vs[0]) + rest =~= s + vs);
    } else {
        assert(s + vs =~= s);
    }
}

/// Right after `insert(v)`, the handle it returned names a value of the store,
/// and that value is `v`.
pub proof fn insert_then_get<T>(s: Seq<T>, v: T)
    ensures
        s.len() < s.push(v).len(),
        s.push(v)[s.len() as int] == v,
{
}

/// Further inserts leave every value already held where it was: a handle
/// issued earlier still names a value, and the same one.
pub proof fn inserts_keep_values<T>(s: Seq<T>, vs: Seq<T>, h: nat)
    requires
        h < s.len(),
    ensures
        h < insert_all(s, vs).len(),
        insert_all(s, vs)[h as int] == s[h as int],
{
    insert_all_appends(s, vs);
}

/// A value left behind the reference that `get_mut(h)` gave is what `get(h)`
/// returns afterwards; the values at other positions are untouched.
pub proof fn mutation_is_seen<T>(s: Seq<T>, h: nat, w: T, other: nat)
    requires
        h < s.len(),
        other < s.len(),
        other != h,
    ensures
        h < s.update(h as int, w).len(),
        s.update(h as int, w)[h as int] == w,
        s.update(h as int, w)[other as int] == s[other as int],
{
}

/// The handles that a store issues follow the order of insertion. When the
/// values `vs` are inserted one at a time into a store holding `s`, `insert`
/// returns for the `i`-th of them the length of the store before it; two such
/// handles are then equal exactly when they come from the same insert, and
/// compare as their inserts were made.
pub proof fn handles_follow_insertion<T>(
    s: Seq<T>,
    vs: Seq<T>,
    i: nat,
    j: nat,
    hi: Handle<T>,
    hj: Handle<T>,
)
    requires
        i < vs.len(),
        j < vs.len(),
        hi@ == insert_all(s, vs.take(i as int)).len(),
        hj@ == insert_all(s, vs.take(j as int)).len(),
    ensures
        hi@ == s.len() + i,
        (hi@ == hj@) == (i == j),
        order_of(hi@, hj@) == order_of(i, j),
{
    insert_all_appends(s, vs.take(i as int));
    insert_all_appends(s, vs.take(j as int));
}

} // verus!
