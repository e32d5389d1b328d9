use vstd::prelude::*;
use crate::address::{Address, lemma_view_injective};

verus! {

/// A membership list: no identity appears twice, and it holds at most `cap` entries.
pub open spec fn list_wf(l: Seq<Address>, cap: nat) -> bool {
    l.no_duplicates() && l.len() <= cap
}

/// Membership after setting `a` to `value` in a list that held `before`.
pub open spec fn membership_after(before: Seq<Address>, a: Address, value: bool, x: Address) -> bool {
    if x == a {
        value
    } else {
        before.contains(x)
    }
}

/// Whether setting `a` to `value` would take the list beyond its capacity.
pub open spec fn insert_overflows(before: Seq<Address>, a: Address, value: bool, cap: nat) -> bool {
    value && !before.contains(a) && before.len() >= cap
}

pub fn list_contains(l: &Vec<Address>, a: &Address) -> (r: bool)
    ensures
        r == l@.contains(*a),
{
    let mut i: usize = 0;
    while i < l.len()
        invariant
            0 <= i <= l@.len(),
            forall|j: int| 0 <= j < i ==> l@[j] != *a,
        decreases l@.len() - i,
    {
        if l[i].same(a) {
            assert(l@[i as int] == *a);
            return true;
        }
        i = i + 1;
    }
    false
}

/// Whether `l` is free of repeats and holds at most `cap` entries.
pub fn list_is_wf(l: &Vec<Address>, cap: usize) -> (r: bool)
    ensures
        r == list_wf(l@, cap as nat),
{
    if l.len() > cap {
        return false;
    }
    let mut i: usize = 0;
    while i < l.len()
        invariant
            0 <= i <= l@.len(),
            forall|p: int, q: int| 0 <= p < i && 0 <= q < l@.len() && p != q ==> l@[p] != l@[q],
        decreases l@.len() - i,
    {
        let mut j: usize = 0;
        while j < l.len()
            invariant
                0 <= i < l@.len(),
                0 <= j <= l@.len(),
                forall|p: int, q: int| 0 <= p < i && 0 <= q < l@.len() && p != q ==> l@[p] != l@[q],
                forall|q: int| 0 <= q < j && q != i ==> l@[i as int] != l@[q],
            decreases l@.len() - j,
        {
            if j != i && l[i].same(&l[j]) {
                return false;
            }
            j = j + 1;
        }
        i = i + 1;
    }
    true
}

/// Position of `a` in `l`, if it is there.
fn list_position(l: &Vec<Address>, a: &Address) -> (r: Option<usize>)
    ensures
        r is None <==> !l@.contains(*a),
        r matches Some(i) ==> i < l@.len() && l@[i as int] == *a,
{
    let mut i: usize = 0;
    while i < l.len()
        invariant
            0 <= i <= l@.len(),
            forall|j: int| 0 <= j < i ==> l@[j] != *a,
        decreases l@.len() - i,
    {
        if l[i].same(a) {
            return Some(i);
        }
        i = i + 1;
    }
    None
}

/// Adds `a` to the list when `value` holds and removes it otherwise.
/// Adding an absent identity to a full list fails and leaves the list as it was;
/// adding a present one or removing an absent one changes nothing.
pub fn set_member(l: &mut Vec<Address>, a: Address, value: bool, cap: usize) -> (r: bool)
    requires
        old(l)@.no_duplicates(),
    ensures
        r == !insert_overflows(old(l)@, a, value, cap as nat),
        !r ==> final(l)@ == old(l)@,
        r ==> forall|x: Address| #[trigger] final(l)@.contains(x) == membership_after(old(l)@, a, value, x),
        final(l)@.no_duplicates(),
        final(l)@.len() <= old(l)@.len() || final(l)@.len() <= cap,
{
    let pos = list_position(l, &a);
    if value {
        match pos {
            Some(_) => true,
            None => {
                if l.len() >= cap {
                    false
                } else {
                    let ghost before = l@;
                    l.push(a);
                    proof {
                        assert(l@ == before.push(a));
                        assert forall|x: Address| #[trigger] l@.contains(x) == membership_after(before, a, value, x) by {
                            if l@.contains(x) {
                                let j = choose|j: int| 0 <= j < l@.len() && l@[j] == x;
                                if j < before.len() {
                                    assert(before[j] == x);
                                }
                            }
                            if x != a && before.contains(x) {
                                let j = choose|j: int| 0 <= j < before.len() && before[j] == x;
                                assert(l@[j] == x);
                            }
                            assert(l@[before.len() as int] == a);
                        }
                        assert forall|p: int, q: int| 0 <= p < l@.len() && 0 <= q < l@.len() && p != q implies l@[p] != l@[q] by {
                            if p == before.len() {
                                assert(l@[q] == before[q]);
                            } else if q == before.len() {
                                assert(l@[p] == before[p]);
                            } else {
                                assert(l@[p] == before[p] && l@[q] == before[q]);
                            }
                        }
                    }
                    true
                }
            }
        }
    } else {
        match pos {
            None => true,
            Some(i) => {
                let ghost before = l@;
                l.remove(i);
                proof {
                    assert(l@ == before.remove(i as int));
                    assert forall|x: Address| #[trigger] l@.contains(x) == membership_after(before, a, value, x) by {
                        if l@.contains(x) {
                            let j = choose|j: int| 0 <= j < l@.len() && l@[j] == x;
                            if j < i {
                                assert(before[j] == x);
                                assert(j != i);
                            } else {
                                assert(before[j + 1] == x);
                                assert(j + 1 != i);
                            }
                        }
                        if x != a && before.contains(x) {
                            let j = choose|j: int| 0 <= j < before.len() && before[j] == x;
                            assert(j != i);
                            if j < i {
                                assert(l@[j] == x);
                            } else {
                                assert(l@[j - 1] == x);
                            }
                        }
                    }
                    assert forall|p: int, q: int| 0 <= p < l@.len() && 0 <= q < l@.len() && p != q implies l@[p] != l@[q] by {
                        let pp = if p < i { p } else { p + 1 };
                        let qq = if q < i { q } else { q + 1 };
                        assert(l@[p] == before[pp]);
                        assert(l@[q] == before[qq]);
                    }
                }
                true
            }
        }
    }
}

} // verus!
