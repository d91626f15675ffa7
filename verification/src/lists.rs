//! Lists in which the place of a value matters: where a value stands first,
//! and what is left when every value is kept once.

use vstd::prelude::*;

verus! {

/// The mathematical values of a list, one for one.
pub open spec fn views<T: View>(items: Seq<T>) -> Seq<T::V> {
    items.map_values(|item: T| item@)
}

/// Whether `i` is the place of `value` in `list`: the first index that holds
/// it, or the length of the list where no index holds it.
pub open spec fn is_slot<V>(list: Seq<V>, value: V, i: int) -> bool {
    &&& 0 <= i <= list.len()
    &&& forall|j: int| 0 <= j < i ==> list[j] != value
    &&& i < list.len() ==> list[i] == value
}

/// The place of `value` in `list`.
pub open spec fn slot<V>(list: Seq<V>, value: V) -> int {
    choose|i: int| is_slot(list, value, i)
}

/// Every value has a place in every list.
pub proof fn slot_exists<V>(list: Seq<V>, value: V)
    ensures
        is_slot(list, value, slot(list, value)),
    decreases list.len(),
{
    if list.len() == 0 {
        assert(is_slot(list, value, 0));
    } else {
        let front = list.drop_last();
        slot_exists(front, value);
        let k = slot(front, value);
        assert(forall|j: int| 0 <= j < front.len() ==> front[j] == list[j]);
        if k < front.len() {
            assert(is_slot(list, value, k));
        } else if list.last() == value {
            assert(is_slot(list, value, list.len() - 1));
        } else {
            assert(is_slot(list, value, list.len() as int));
        }
    }
}

/// A value has one place only.
pub proof fn slot_is_unique<V>(list: Seq<V>, value: V, i: int)
    requires
        is_slot(list, value, i),
    ensures
        slot(list, value) == i,
{
    let k = slot(list, value);
    assert(is_slot(list, value, k));
    if k < i {
        assert(list[k] != value);
    } else if i < k {
        assert(list[i] != value);
    }
}

/// A value stands in a list exactly when its place is inside the list.
pub proof fn slot_tells_membership<V>(list: Seq<V>, value: V)
    ensures
        list.contains(value) <==> slot(list, value) < list.len(),
{
    slot_exists(list, value);
    let i = slot(list, value);
    if list.contains(value) {
        let k = choose|k: int| 0 <= k < list.len() && list[k] == value;
        assert(i <= k);
    }
    if i < list.len() {
        assert(list[i] == value);
    }
}

/// The index of the first of `list` that is `text`, or the length of the
/// list where none is.
pub fn position(list: &Vec<String>, text: &String) -> (r: usize)
    ensures
        r == slot(views(list@), text@),
        r <= list@.len(),
{
    let mut i: usize = 0;
    while i < list.len()
        invariant
            i <= list.len(),
            forall|j: int| 0 <= j < i ==> views(list@)[j] != text@,
        decreases list.len() - i,
    {
        if list[i] == *text {
            proof {
                slot_is_unique(views(list@), text@, i as int);
            }
            return i;
        }
        i += 1;
    }
    proof {
        slot_is_unique(views(list@), text@, i as int);
    }
    i
}

/// A copy of a list of texts.
pub fn copied(list: &Vec<String>) -> (r: Vec<String>)
    ensures
        views(r@) == views(list@),
{
    let mut r: Vec<String> = Vec::new();
    let mut i: usize = 0;
    while i < list.len()
        invariant
            i <= list.len(),
            r@.len() == i,
            forall|j: int| 0 <= j < i ==> r@[j]@ == list@[j]@,
        decreases list.len() - i,
    {
        r.push(list[i].clone());
        i += 1;
    }
    r
}

/// The first `n` entries of `list` with every value kept once, at the place
/// where it stands first.
pub open spec fn unique<V>(list: Seq<V>, n: nat) -> Seq<V>
    decreases n,
{
    if n == 0 || n > list.len() {
        Seq::empty()
    } else {
        let before = unique(list, (n - 1) as nat);
        if before.contains(list[n - 1]) {
            before
        } else {
            before.push(list[n - 1])
        }
    }
}

/// What is left of a list keeps no value twice, holds only values of the
/// list, and loses none of them.
pub proof fn unique_is_exact<V>(list: Seq<V>, n: nat)
    requires
        n <= list.len(),
    ensures
        unique(list, n).no_duplicates(),
        forall|k: int|
            0 <= k < unique(list, n).len() ==> exists|j: int|
                0 <= j < n && list[j] == #[trigger] unique(list, n)[k],
        forall|j: int| 0 <= j < n ==> unique(list, n).contains(#[trigger] list[j]),
    decreases n,
{
    if n > 0 {
        unique_is_exact(list, (n - 1) as nat);
        let before = unique(list, (n - 1) as nat);
        let now = unique(list, n);
        let last = list[n - 1];
        if !before.contains(last) {
            assert forall|k: int| 0 <= k < now.len() implies exists|j: int|
                0 <= j < n && list[j] == #[trigger] now[k] by {
                if k < before.len() {
                    let j = choose|j: int| 0 <= j < n - 1 && list[j] == before[k];
                    assert(list[j] == now[k]);
                } else {
                    assert(list[n - 1] == now[k]);
                }
            }
            assert forall|j: int| 0 <= j < n implies now.contains(#[trigger] list[j]) by {
                if j < n - 1 {
                    let k = choose|k: int| 0 <= k < before.len() && before[k] == list[j];
                    assert(now[k] == list[j]);
                } else {
                    assert(now[before.len() as int] == list[j]);
                }
            }
            assert forall|a: int, b: int|
                0 <= a < now.len() && 0 <= b < now.len() && a != b implies now[a] != now[b] by {
                if a == before.len() {
                    assert(before.contains(before[b]));
                } else if b == before.len() {
                    assert(before.contains(before[a]));
                }
            }
        }
    }
}

/// Keeps every text of a list once, at the place where it stands first.
pub fn dedup(list: Vec<String>) -> (r: Vec<String>)
    ensures
        views(r@) == unique(views(list@), list@.len()),
{
    let mut r: Vec<String> = Vec::new();
    let mut i: usize = 0;
    while i < list.len()
        invariant
            i <= list.len(),
            views(r@) == unique(views(list@), i as nat),
        decreases list.len() - i,
    {
        let ghost before = views(r@);
        let ghost text = list@[i as int]@;
        let at = position(&r, &list[i]);
        proof {
            slot_exists(before, text);
            slot_tells_membership(before, text);
        }
        if at == r.len() {
            r.push(list[i].clone());
        }
        i += 1;
    }
    r
}

} // verus!
