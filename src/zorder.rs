//! The z-order model: how each reordering operation of a canvas changes its
//! back-to-front list of shape identities, and the laws those changes obey.
use vstd::prelude::*;

verus! {

/// `order` once `h` has been added: appended at the end, on top of every
/// other shape, unless it is there already.
pub open spec fn order_after_add<A>(order: Seq<A>, h: A) -> Seq<A> {
    if order.contains(h) {
        order
    } else {
        order.push(h)
    }
}

/// `order` once `h` has been moved to the end, if it is there at all.
pub open spec fn order_after_put_on_top<A>(order: Seq<A>, h: A) -> Seq<A> {
    if order.contains(h) {
        order.remove(order.index_of(h)).push(h)
    } else {
        order
    }
}

/// `order` once `a` has been taken out and put back just after `b`; nothing
/// moves when either is missing or when they are the same.
pub open spec fn order_after_put_on_top_of<A>(order: Seq<A>, a: A, b: A) -> Seq<A> {
    if order.contains(a) && order.contains(b) && a != b {
        let rest = order.remove(order.index_of(a));
        rest.insert(rest.index_of(b) + 1, a)
    } else {
        order
    }
}

/// `order` once `h` has been taken out, if it is there at all.
pub open spec fn order_after_remove<A>(order: Seq<A>, h: A) -> Seq<A> {
    if order.contains(h) {
        order.remove(order.index_of(h))
    } else {
        order
    }
}

/// `order` once each of `hs` has been added in turn.
pub open spec fn order_after_adds<A>(order: Seq<A>, hs: Seq<A>) -> Seq<A>
    decreases hs.len(),
{
    if hs.len() == 0 {
        order
    } else {
        order_after_add(order_after_adds(order, hs.drop_last()), hs.last())
    }
}

/// In a list without duplicates, an element's index is the one place it
/// stands.
pub proof fn lemma_index_of_unique<A>(order: Seq<A>, i: int)
    requires
        order.no_duplicates(),
        0 <= i < order.len(),
    ensures
        order.contains(order[i]),
        order.index_of(order[i]) == i,
{
    assert(order.contains(order[i]));
}

/// Taking an element out of a list without duplicates leaves one without
/// duplicates, holding every other element and not the one taken.
pub proof fn lemma_remove_keeps_distinct<A>(order: Seq<A>, i: int)
    requires
        order.no_duplicates(),
        0 <= i < order.len(),
    ensures
        order.remove(i).no_duplicates(),
        order.remove(i).len() == order.len() - 1,
        !order.remove(i).contains(order[i]),
        forall|x: A| x != order[i] ==> (order.remove(i).contains(x) <==> order.contains(x)),
{
    let r = order.remove(i);
    order.remove_ensures(i);
    assert forall|x: A| x != order[i] && order.contains(x) implies r.contains(x) by {
        let j = choose|j: int| 0 <= j < order.len() && order[j] == x;
        if j < i {
            assert(r[j] == x);
        } else {
            assert(r[j - 1] == x);
        }
    }
    assert forall|x: A| r.contains(x) implies order.contains(x) && x != order[i] by {
        let j = choose|j: int| 0 <= j < r.len() && r[j] == x;
        if j < i {
            assert(order[j] == x);
        } else {
            assert(order[j + 1] == x);
        }
    }
}

/// Inserting an element that is missing from a list without duplicates
/// leaves one without duplicates that holds it.
pub proof fn lemma_insert_keeps_distinct<A>(order: Seq<A>, i: int, x: A)
    requires
        order.no_duplicates(),
        !order.contains(x),
        0 <= i <= order.len(),
    ensures
        order.insert(i, x).no_duplicates(),
        order.insert(i, x).len() == order.len() + 1,
        order.insert(i, x)[i] == x,
        forall|y: A| order.insert(i, x).contains(y) <==> (y == x || order.contains(y)),
{
    let r = order.insert(i, x);
    order.insert_ensures(i, x);
    assert forall|j: int| 0 <= j < r.len() implies (j < i ==> r[j] == order[j]) && (j == i ==> r[j] == x)
        && (j > i ==> r[j] == order[j - 1]) by {
        if j > i {
            assert(r[(j - 1) + 1] == order[j - 1]);
        }
    }
    assert forall|y: A| order.contains(y) implies r.contains(y) by {
        let j = choose|j: int| 0 <= j < order.len() && order[j] == y;
        if j < i {
            assert(r[j] == y);
        } else {
            assert(r[j + 1] == y);
        }
    }
    assert(r.contains(x));
}

/// Adding distinct shapes one after another to an empty list leaves them in
/// the order they were added: the first added is the bottom-most.
pub proof fn lemma_adds_keep_insertion_order<A>(hs: Seq<A>)
    requires
        hs.no_duplicates(),
    ensures
        order_after_adds(Seq::<A>::empty(), hs) == hs,
    decreases hs.len(),
{
    if hs.len() > 0 {
        let init = hs.drop_last();
        assert(init.no_duplicates());
        lemma_adds_keep_insertion_order(init);
        assert(!init.contains(hs.last())) by {
            if init.contains(hs.last()) {
                let j = choose|j: int| 0 <= j < init.len() && init[j] == hs.last();
                assert(hs[j] == hs[hs.len() - 1]);
            }
        }
        assert(init.push(hs.last()) =~= hs);
    }
}

/// Putting a shape of the list on top makes it the last one painted, keeps
/// every other shape, and keeps the list free of duplicates; putting on top
/// a shape that is not there changes nothing.
pub proof fn lemma_put_on_top_puts_last<A>(order: Seq<A>, h: A)
    requires
        order.no_duplicates(),
    ensures
        ({
            let r = order_after_put_on_top(order, h);
            &&& order.contains(h) ==> {
                &&& r.len() == order.len()
                &&& r.last() == h
                &&& r.no_duplicates()
                &&& forall|x: A| r.contains(x) <==> order.contains(x)
            }
            &&& !order.contains(h) ==> r == order
        }),
{
    if order.contains(h) {
        let i = order.index_of(h);
        lemma_remove_keeps_distinct(order, i);
        let rest = order.remove(i);
        lemma_insert_keeps_distinct(rest, rest.len() as int, h);
        assert(rest.insert(rest.len() as int, h) =~= rest.push(h));
    }
}

/// Putting `a` on top of another shape `b` leaves `a` immediately after `b`,
/// with every shape kept once.
pub proof fn lemma_put_on_top_of_places_after<A>(order: Seq<A>, a: A, b: A)
    requires
        order.no_duplicates(),
        order.contains(a),
        order.contains(b),
        a != b,
    ensures
        ({
            let r = order_after_put_on_top_of(order, a, b);
            &&& r.len() == order.len()
            &&& r.no_duplicates()
            &&& forall|x: A| r.contains(x) <==> order.contains(x)
            &&& 0 <= r.index_of(b) && r.index_of(b) + 1 < r.len()
            &&& r[r.index_of(b)] == b
            &&& r[r.index_of(b) + 1] == a
        }),
{
    let i = order.index_of(a);
    lemma_remove_keeps_distinct(order, i);
    let rest = order.remove(i);
    assert(rest.contains(b));
    let j = rest.index_of(b);
    lemma_insert_keeps_distinct(rest, j + 1, a);
    let r = rest.insert(j + 1, a);
    rest.insert_ensures(j + 1, a);
    assert(r[j] == b);
    lemma_index_of_unique(r, j);
}

/// When `a` already stands immediately after `b`, putting `a` on top of `b`
/// changes nothing.
pub proof fn lemma_put_on_top_of_in_place<A>(order: Seq<A>, a: A, b: A, i: int)
    requires
        order.no_duplicates(),
        0 <= i,
        i + 1 < order.len(),
        order[i] == b,
        order[i + 1] == a,
    ensures
        order_after_put_on_top_of(order, a, b) == order,
{
    lemma_index_of_unique(order, i);
    lemma_index_of_unique(order, i + 1);
    assert(order.contains(b));
    let rest = order.remove(i + 1);
    lemma_remove_keeps_distinct(order, i + 1);
    order.remove_ensures(i + 1);
    assert(rest[i] == b);
    lemma_index_of_unique(rest, i);
    rest.insert_ensures(i + 1, a);
    assert(rest.insert(i + 1, a) =~= order);
}

/// Removing a shape takes out exactly that one entry, whatever the others
/// look like, and a second removal of it finds nothing.
pub proof fn lemma_remove_takes_one<A>(order: Seq<A>, h: A)
    requires
        order.no_duplicates(),
        order.contains(h),
    ensures
        ({
            let r = order_after_remove(order, h);
            &&& r.len() == order.len() - 1
            &&& r.no_duplicates()
            &&& !r.contains(h)
            &&& forall|x: A| x != h ==> (r.contains(x) <==> order.contains(x))
            &&& order_after_remove(r, h) == r
        }),
{
    let i = order.index_of(h);
    lemma_remove_keeps_distinct(order, i);
}

} // verus!
