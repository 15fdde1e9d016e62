//! Lists whose rows carry an integer id: lookup, removal, and the facts about
//! ids that the event handlers keep.
use vstd::prelude::*;

verus! {

/// A row that is identified by an integer.
pub trait Keyed: Sized {
    /// The row's id.
    spec fn key(&self) -> i64;

    /// Reads the row's id.
    fn read_key(&self) -> (r: i64)
        ensures
            r == self.key(),
    ;
}

/// Whether some row of `s` has the id `k`.
pub open spec fn has_key<T: Keyed>(s: Seq<T>, k: i64) -> bool {
    exists|i: int| 0 <= i < s.len() && (#[trigger] s[i]).key() == k
}

/// The index of the first row with the id `k`, or the length if there is none.
pub open spec fn index_of<T: Keyed>(s: Seq<T>, k: i64) -> int
    decreases s.len(),
{
    if s.len() == 0 || s[0].key() == k {
        0
    } else {
        1 + index_of(s.drop_first(), k)
    }
}

/// The rows of `s` whose id is not `k`, in order.
pub open spec fn without<T: Keyed>(s: Seq<T>, k: i64) -> Seq<T>
    decreases s.len(),
{
    if s.len() == 0 {
        s
    } else if s.last().key() == k {
        without(s.drop_last(), k)
    } else {
        without(s.drop_last(), k).push(s.last())
    }
}

/// No two rows have the same id.
pub open spec fn distinct<T: Keyed>(s: Seq<T>) -> bool {
    forall|i: int, j: int|
        0 <= i < j < s.len() ==> (#[trigger] s[i]).key() != (#[trigger] s[j]).key()
}

/// `index_of` is the least index with the id, and is in bounds exactly when the
/// id is present.
pub proof fn index_of_is_first<T: Keyed>(s: Seq<T>, k: i64)
    ensures
        0 <= index_of(s, k) <= s.len(),
        index_of(s, k) < s.len() <==> has_key(s, k),
        index_of(s, k) < s.len() ==> s[index_of(s, k)].key() == k,
        forall|i: int| 0 <= i < index_of(s, k) ==> (#[trigger] s[i]).key() != k,
    decreases s.len(),
{
    if s.len() > 0 && s[0].key() != k {
        let rest = s.drop_first();
        index_of_is_first(rest, k);
        assert forall|i: int| 0 <= i < index_of(s, k) implies (#[trigger] s[i]).key() != k by {
            if i > 0 {
                assert(s[i] == rest[i - 1]);
            }
        }
        if has_key(s, k) {
            let i = choose|i: int| 0 <= i < s.len() && (#[trigger] s[i]).key() == k;
            assert(rest[i - 1].key() == k);
        }
    }
}

/// Removing an id leaves no row with it, keeps every other row's presence, and
/// keeps ids distinct.
pub proof fn without_keeps_others<T: Keyed>(s: Seq<T>, k: i64)
    ensures
        !has_key(without(s, k), k),
        forall|x: T| #[trigger] without(s, k).contains(x) <==> s.contains(x) && x.key() != k,
        distinct(s) ==> distinct(without(s, k)),
        without(s, k).len() <= s.len(),
    decreases s.len(),
{
    if s.len() > 0 {
        let front = s.drop_last();
        without_keeps_others(front, k);
        let w = without(s, k);
        let fw = without(front, k);
        assert forall|x: T| #[trigger] w.contains(x) implies s.contains(x) && x.key() != k by {
            let i = choose|i: int| 0 <= i < w.len() && w[i] == x;
            if i < fw.len() {
                assert(fw[i] == x);
                assert(fw.contains(x));
                assert(front.contains(x));
                let j = choose|j: int| 0 <= j < front.len() && front[j] == x;
                assert(s[j] == x);
            } else {
                assert(s[s.len() - 1] == x);
            }
        }
        assert forall|x: T| s.contains(x) && x.key() != k implies #[trigger] w.contains(x) by {
            let j = choose|j: int| 0 <= j < s.len() && s[j] == x;
            if j < front.len() {
                assert(front[j] == x);
                assert(front.contains(x));
                assert(fw.contains(x));
                let i = choose|i: int| 0 <= i < fw.len() && fw[i] == x;
                assert(w[i] == x);
            } else {
                assert(w[w.len() - 1] == x);
            }
        }
        if distinct(s) {
            assert(distinct(front));
            assert forall|i: int, j: int| 0 <= i < j < w.len() implies (#[trigger] w[i]).key() != (
            #[trigger] w[j]).key() by {
                if j < fw.len() {
                    assert(fw[i] == w[i]);
                    assert(fw[j] == w[j]);
                } else {
                    assert(w[i] == fw[i]);
                    assert(fw.contains(fw[i]));
                    assert(front.contains(fw[i]));
                    let n = choose|n: int| 0 <= n < front.len() && front[n] == fw[i];
                    assert(s[n] == fw[i]);
                    assert(s[s.len() - 1] == w[j]);
                }
            }
        }
        if has_key(w, k) {
            let i = choose|i: int| 0 <= i < w.len() && (#[trigger] w[i]).key() == k;
            assert(w.contains(w[i]));
        }
    }
}

/// The index of the first row with the id `k`.
pub fn find<T: Keyed>(v: &Vec<T>, k: i64) -> (r: Option<usize>)
    ensures
        match r {
            Some(i) => i < v@.len() && i == index_of(v@, k) && has_key(v@, k) && v@[i as int].key()
                == k,
            None => !has_key(v@, k) && index_of(v@, k) == v@.len(),
        },
{
    proof {
        index_of_is_first(v@, k);
    }
    let mut i: usize = 0;
    while i < v.len()
        invariant
            i <= v@.len(),
            0 <= index_of(v@, k) <= v@.len(),
            index_of(v@, k) < v@.len() <==> has_key(v@, k),
            index_of(v@, k) < v@.len() ==> v@[index_of(v@, k)].key() == k,
            forall|j: int| 0 <= j < index_of(v@, k) ==> (#[trigger] v@[j]).key() != k,
            forall|j: int| 0 <= j < i ==> (#[trigger] v@[j]).key() != k,
        decreases v@.len() - i,
    {
        if v[i].read_key() == k {
            return Some(i);
        }
        i += 1;
    }
    None
}

/// Whether some row has the id `k`.
pub fn contains<T: Keyed>(v: &Vec<T>, k: i64) -> (r: bool)
    ensures
        r == has_key(v@, k),
{
    match find(v, k) {
        Some(_) => true,
        None => false,
    }
}

/// Drops every row with the id `k`.
pub fn remove_key<T: Keyed>(v: &mut Vec<T>, k: i64)
    ensures
        final(v)@ == without(old(v)@, k),
{
    let ghost all = v@;
    let mut i: usize = 0;
    let ghost mut seen: int = 0;
    assert(without(all.take(0), k) + all.skip(0) =~= all);
    while i < v.len()
        invariant
            0 <= seen <= all.len(),
            i == without(all.take(seen), k).len(),
            v@ == without(all.take(seen), k) + all.skip(seen),
        decreases v@.len() - i,
    {
        let ghost kept = without(all.take(seen), k);
        assert(all.take(seen + 1).drop_last() =~= all.take(seen));
        assert(v@[i as int] == all[seen]);
        if v[i].read_key() == k {
            v.remove(i);
            assert(v@ =~= kept + all.skip(seen + 1));
        } else {
            i += 1;
            assert(v@ =~= kept.push(all[seen]) + all.skip(seen + 1));
        }
        proof {
            seen = seen + 1;
        }
    }
    assert(seen == all.len());
    assert(all.take(seen) =~= all);
    assert(v@ =~= without(all, k));
}

/// The numbers of `s` other than `k`, in order.
pub open spec fn ids_without(s: Seq<i64>, k: i64) -> Seq<i64>
    decreases s.len(),
{
    if s.len() == 0 {
        s
    } else if s.last() == k {
        ids_without(s.drop_last(), k)
    } else {
        ids_without(s.drop_last(), k).push(s.last())
    }
}

/// Whether `k` occurs in `v`.
pub fn contains_id(v: &Vec<i64>, k: i64) -> (r: bool)
    ensures
        r == v@.contains(k),
{
    let mut i: usize = 0;
    while i < v.len()
        invariant
            i <= v@.len(),
            forall|j: int| 0 <= j < i ==> v@[j] != k,
        decreases v@.len() - i,
    {
        if v[i] == k {
            assert(v@[i as int] == k);
            return true;
        }
        i += 1;
    }
    false
}

} // verus!
