//! Ordered walks over the sparse component tables.
//!
//! Every component table is a `HashMap` keyed by entity id. A hash map hands
//! its keys out in an order of its own, so the systems never walk a table
//! directly: they walk its ids in ascending order, which makes every pass
//! over the world deterministic.

use std::collections::hash_map::Entry;
use std::collections::HashMap;
use vstd::prelude::*;
use vstd::std_specs::iter::IteratorSpec;

verus! {

/// The members of `s` that are smaller than `bound`, in ascending order.
pub open spec fn ids_below(s: Set<u32>, bound: nat) -> Seq<u32>
    decreases bound,
{
    if bound == 0 {
        Seq::empty()
    } else {
        let rest = ids_below(s, (bound - 1) as nat);
        if bound - 1 <= u32::MAX && s.contains((bound - 1) as u32) {
            rest.push((bound - 1) as u32)
        } else {
            rest
        }
    }
}

/// All members of `s`, in ascending order.
pub open spec fn ascending_ids(s: Set<u32>) -> Seq<u32> {
    ids_below(s, 0x1_0000_0000)
}

pub open spec fn strictly_increasing(v: Seq<u32>) -> bool {
    forall|i: int, j: int| 0 <= i < j < v.len() ==> v[i] < v[j]
}

/// `ids_below` lists exactly the members under the bound, each once, smallest first.
pub proof fn lemma_ids_below(s: Set<u32>, bound: nat)
    ensures
        strictly_increasing(ids_below(s, bound)),
        forall|x: u32| #[trigger] ids_below(s, bound).contains(x) ==> s.contains(x) && x < bound,
        forall|x: u32| #[trigger] s.contains(x) && x < bound ==> ids_below(s, bound).contains(x),
    decreases bound,
{
    let r = ids_below(s, bound);
    if bound == 0 {
        assert(r.len() == 0);
    } else {
        let rest = ids_below(s, (bound - 1) as nat);
        lemma_ids_below(s, (bound - 1) as nat);
        if bound - 1 <= u32::MAX && s.contains((bound - 1) as u32) {
            let top = (bound - 1) as u32;
            assert(r == rest.push(top));
            assert forall|i: int, j: int| 0 <= i < j < r.len() implies r[i] < r[j] by {
                assert(r[i] == rest[i]);
                if j == rest.len() {
                    assert(rest.contains(rest[i]));
                    assert(r[j] == top);
                } else {
                    assert(r[j] == rest[j]);
                }
            }
            assert forall|x: u32| r.contains(x) <==> (s.contains(x) && x < bound) by {
                if r.contains(x) {
                    let i = choose|i: int| 0 <= i < r.len() && r[i] == x;
                    if i < rest.len() {
                        assert(rest[i] == x);
                        assert(rest.contains(x));
                    }
                }
                if s.contains(x) && x < bound {
                    if x == top {
                        assert(r[rest.len() as int] == x);
                    } else {
                        assert(rest.contains(x));
                        let i = choose|i: int| 0 <= i < rest.len() && rest[i] == x;
                        assert(r[i] == x);
                    }
                }
            }
        } else {
            assert(r == rest);
            assert forall|x: u32| r.contains(x) <==> (s.contains(x) && x < bound) by {
                if s.contains(x) && x < bound {
                    assert(x != bound - 1);
                }
            }
        }
    }
}

/// Two strictly increasing sequences with the same elements are the same sequence.
pub proof fn lemma_increasing_unique(a: Seq<u32>, b: Seq<u32>)
    requires
        strictly_increasing(a),
        strictly_increasing(b),
        forall|x: u32| a.contains(x) <==> b.contains(x),
    ensures
        a == b,
    decreases a.len(),
{
    if a.len() == 0 {
        if b.len() > 0 {
            assert(b.contains(b[0]));
        }
        assert(a =~= b);
    } else {
        assert(a.contains(a.last()));
        let jb = choose|j: int| 0 <= j < b.len() && b[j] == a.last();
        assert(b.contains(b.last()));
        let ja = choose|j: int| 0 <= j < a.len() && a[j] == b.last();
        assert(a.last() == b.last());
        let a0 = a.drop_last();
        let b0 = b.drop_last();
        assert forall|x: u32| a0.contains(x) <==> b0.contains(x) by {
            if a0.contains(x) {
                let i = choose|i: int| 0 <= i < a0.len() && a0[i] == x;
                assert(a[i] == x);
                assert(a.contains(x));
                let j = choose|j: int| 0 <= j < b.len() && b[j] == x;
                assert(b0[j] == x);
            }
            if b0.contains(x) {
                let i = choose|i: int| 0 <= i < b0.len() && b0[i] == x;
                assert(b[i] == x);
                assert(b.contains(x));
                let j = choose|j: int| 0 <= j < a.len() && a[j] == x;
                assert(a0[j] == x);
            }
        }
        lemma_increasing_unique(a0, b0);
        assert(a =~= a0.push(a.last()));
        assert(b =~= b0.push(b.last()));
    }
}

/// A strictly increasing listing of a set is its ascending listing.
pub proof fn lemma_ascending_listing(v: Seq<u32>, s: Set<u32>)
    requires
        strictly_increasing(v),
        forall|x: u32| v.contains(x) <==> s.contains(x),
    ensures
        v == ascending_ids(s),
{
    lemma_ids_below(s, 0x1_0000_0000);
    lemma_increasing_unique(v, ascending_ids(s));
}

/// The ascending listing holds each member exactly once and nothing else.
pub proof fn lemma_ascending_ids(s: Set<u32>)
    ensures
        strictly_increasing(ascending_ids(s)),
        ascending_ids(s).no_duplicates(),
        forall|x: u32| ascending_ids(s).contains(x) <==> s.contains(x),
{
    lemma_ids_below(s, 0x1_0000_0000);
}

/// The first id in `ids` that satisfies `p`.
pub open spec fn first_where(ids: Seq<u32>, p: spec_fn(u32) -> bool) -> Option<u32>
    decreases ids.len(),
{
    if ids.len() == 0 {
        None
    } else if p(ids[0]) {
        Some(ids[0])
    } else {
        first_where(ids.drop_first(), p)
    }
}

/// The ids in `ids` that satisfy `p`, in the order of `ids`.
pub open spec fn ids_where(ids: Seq<u32>, p: spec_fn(u32) -> bool) -> Seq<u32>
    decreases ids.len(),
{
    if ids.len() == 0 {
        Seq::empty()
    } else if p(ids.last()) {
        ids_where(ids.drop_last(), p).push(ids.last())
    } else {
        ids_where(ids.drop_last(), p)
    }
}

/// The lowest member of `s` that satisfies `p`.
pub open spec fn lowest_where(s: Set<u32>, p: spec_fn(u32) -> bool) -> Option<u32> {
    first_where(ascending_ids(s), p)
}

/// The members of `s` that satisfy `p`, in ascending order.
pub open spec fn all_where(s: Set<u32>, p: spec_fn(u32) -> bool) -> Seq<u32> {
    ids_where(ascending_ids(s), p)
}

pub proof fn lemma_first_where_found(ids: Seq<u32>, p: spec_fn(u32) -> bool, i: int)
    requires
        0 <= i < ids.len(),
        p(ids[i]),
        forall|j: int| 0 <= j < i ==> !p(#[trigger] ids[j]),
    ensures
        first_where(ids, p) == Some(ids[i]),
    decreases i,
{
    if i > 0 {
        let rest = ids.drop_first();
        assert(!p(ids[0]));
        assert forall|j: int| 0 <= j < i - 1 implies !p(#[trigger] rest[j]) by {
            assert(rest[j] == ids[j + 1]);
        }
        lemma_first_where_found(rest, p, i - 1);
    }
}

pub proof fn lemma_first_where_none(ids: Seq<u32>, p: spec_fn(u32) -> bool)
    requires
        forall|j: int| 0 <= j < ids.len() ==> !p(#[trigger] ids[j]),
    ensures
        first_where(ids, p) is None,
    decreases ids.len(),
{
    if ids.len() > 0 {
        let rest = ids.drop_first();
        assert(!p(ids[0]));
        assert forall|j: int| 0 <= j < rest.len() implies !p(#[trigger] rest[j]) by {
            assert(rest[j] == ids[j + 1]);
        }
        lemma_first_where_none(rest, p);
    }
}

/// The position of the first id in `ids` that satisfies `p`, or the length where none does.
pub open spec fn first_pos(ids: Seq<u32>, p: spec_fn(u32) -> bool) -> int
    decreases ids.len(),
{
    if ids.len() == 0 {
        0
    } else if p(ids[0]) {
        0
    } else {
        1 + first_pos(ids.drop_first(), p)
    }
}

pub proof fn lemma_first_pos(ids: Seq<u32>, p: spec_fn(u32) -> bool)
    ensures
        0 <= first_pos(ids, p) <= ids.len(),
        forall|j: int| 0 <= j < first_pos(ids, p) ==> !p(#[trigger] ids[j]),
        first_pos(ids, p) < ids.len() ==> p(ids[first_pos(ids, p)]) && first_where(ids, p) == Some(
            ids[first_pos(ids, p)],
        ),
        first_pos(ids, p) == ids.len() ==> first_where(ids, p) is None,
    decreases ids.len(),
{
    if ids.len() > 0 && !p(ids[0]) {
        let rest = ids.drop_first();
        lemma_first_pos(rest, p);
        assert forall|j: int| 0 <= j < first_pos(ids, p) implies !p(#[trigger] ids[j]) by {
            if j > 0 {
                assert(rest[j - 1] == ids[j]);
            }
        }
        if first_pos(rest, p) < rest.len() {
            assert(rest[first_pos(rest, p)] == ids[first_pos(ids, p)]);
        }
    }
}

/// The lowest match is a member, satisfies `p`, and no smaller member does.
pub proof fn lemma_lowest_where(s: Set<u32>, p: spec_fn(u32) -> bool)
    ensures
        match lowest_where(s, p) {
            Some(e) => s.contains(e) && p(e) && forall|x: u32| s.contains(x) && p(x) ==> e <= x,
            None => forall|x: u32| s.contains(x) ==> !p(x),
        },
{
    let ids = ascending_ids(s);
    lemma_ascending_ids(s);
    lemma_first_pos(ids, p);
    let k = first_pos(ids, p);
    if k < ids.len() {
        let e = ids[k];
        assert(ids.contains(e));
        assert forall|x: u32| s.contains(x) && p(x) implies e <= x by {
            assert(ids.contains(x));
            let i = choose|i: int| 0 <= i < ids.len() && ids[i] == x;
            if i < k {
                assert(!p(ids[i]));
            } else if i > k {
                assert(ids[k] < ids[i]);
            }
        }
    } else {
        assert forall|x: u32| s.contains(x) implies !p(x) by {
            assert(ids.contains(x));
            let i = choose|i: int| 0 <= i < ids.len() && ids[i] == x;
            assert(!p(ids[i]));
        }
    }
}

/// Extending the scanned prefix by one id extends the selection by that id or not at all.
pub proof fn lemma_ids_where_step(ids: Seq<u32>, p: spec_fn(u32) -> bool, i: int)
    requires
        0 <= i < ids.len(),
    ensures
        ids_where(ids.take(i + 1), p) == if p(ids[i]) {
            ids_where(ids.take(i), p).push(ids[i])
        } else {
            ids_where(ids.take(i), p)
        },
{
    assert(ids.take(i + 1).drop_last() =~= ids.take(i));
}

/// The selection holds exactly the ids of `ids` that satisfy `p`.
pub proof fn lemma_ids_where(ids: Seq<u32>, p: spec_fn(u32) -> bool)
    ensures
        forall|x: u32| #[trigger] ids_where(ids, p).contains(x) ==> ids.contains(x) && p(x),
        forall|x: u32| #[trigger] ids.contains(x) && p(x) ==> ids_where(ids, p).contains(x),
        strictly_increasing(ids) ==> strictly_increasing(ids_where(ids, p)),
        ids_where(ids, p).len() <= ids.len(),
    decreases ids.len(),
{
    let r = ids_where(ids, p);
    if ids.len() > 0 {
        let init = ids.drop_last();
        let r0 = ids_where(init, p);
        lemma_ids_where(init, p);
        assert forall|x: u32| #[trigger] r.contains(x) implies ids.contains(x) && p(x) by {
            if r.contains(x) {
                let i = choose|i: int| 0 <= i < r.len() && r[i] == x;
                if i < r0.len() {
                    assert(r0[i] == x);
                    assert(r0.contains(x));
                    let k = choose|k: int| 0 <= k < init.len() && init[k] == x;
                    assert(ids[k] == x);
                } else {
                    assert(ids[ids.len() - 1] == x);
                }
            }
        }
        assert forall|x: u32| #[trigger] ids.contains(x) && p(x) implies r.contains(x) by {
            if ids.contains(x) && p(x) {
                let k = choose|k: int| 0 <= k < ids.len() && ids[k] == x;
                if k < init.len() {
                    assert(init[k] == x);
                    assert(init.contains(x));
                    let i = choose|i: int| 0 <= i < r0.len() && r0[i] == x;
                    assert(r[i] == x);
                } else {
                    assert(r[r.len() - 1] == x);
                }
            }
        }
        if strictly_increasing(ids) {
            assert(strictly_increasing(init)) by {
                assert forall|i: int, j: int| 0 <= i < j < init.len() implies init[i] < init[j] by {
                    assert(init[i] == ids[i] && init[j] == ids[j]);
                }
            }
            assert forall|i: int, j: int| 0 <= i < j < r.len() implies r[i] < r[j] by {
                if j == r0.len() {
                    assert(r0[i] == r[i]);
                    assert(r0.contains(r0[i]));
                    let k = choose|k: int| 0 <= k < init.len() && init[k] == r0[i];
                    assert(ids[k] < ids[ids.len() - 1]);
                } else {
                    assert(r0[i] == r[i] && r0[j] == r[j]);
                }
            }
        }
    }
}

/// The keys of a table, in the order in which the hash map walks them.
fn table_keys<V>(m: &HashMap<u32, V>) -> (v: Vec<u32>)
    ensures
        forall|x: u32| v@.contains(x) <==> m@.contains_key(x),
{
    broadcast use vstd::std_specs::hash::group_hash_axioms;

    let mut v: Vec<u32> = Vec::new();
    for k in it: m.keys()
        invariant
            it.seq() == vstd::std_specs::hash::spec_keys_iter(m).remaining(),
            v@.len() == it.index(),
            forall|j: int| 0 <= j < v@.len() ==> v@[j] == *it.seq()[j],
    {
        v.push(*k);
    }
    proof {
        vstd::std_specs::hash::axiom_spec_keys_iter(m);
        let walked = vstd::std_specs::hash::spec_keys_iter(m).remaining().unref();
        assert(v@ =~= walked);
        assert forall|x: u32| v@.contains(x) <==> m@.contains_key(x) by {
            assert(walked.to_set().contains(x) <==> walked.contains(x));
        }
    }
    v
}

/// The component that `id` carries in table `m`, to be changed in place.
pub fn table_get_mut<V>(m: &mut HashMap<u32, V>, id: u32) -> (slot: Option<&mut V>)
    ensures
        match slot {
            Some(v) => {
                &&& old(m)@.contains_key(id)
                &&& *v == old(m)@[id]
                &&& final(m)@ == old(m)@.insert(id, *final(v))
            },
            None => !old(m)@.contains_key(id) && final(m)@ == old(m)@,
        },
{
    broadcast use vstd::std_specs::hash::group_hash_axioms;

    match m.entry(id) {
        Entry::Occupied(occupied) => Some(occupied.into_mut()),
        Entry::Vacant(_) => {
            assert(old(m)@.remove(id) =~= old(m)@);
            None
        },
    }
}

/// The ids that carry a component in table `m`, in ascending order.
pub fn sorted_keys<V>(m: &HashMap<u32, V>) -> (ids: Vec<u32>)
    ensures
        ids@ == ascending_ids(m@.dom()),
{
    let keys = table_keys(m);
    let n = keys.len();
    let mut ids: Vec<u32> = Vec::new();
    let mut have_last = false;
    let mut last: u32 = 0;
    loop
        invariant
            n == keys@.len(),
            forall|x: u32| keys@.contains(x) <==> m@.contains_key(x),
            strictly_increasing(ids@),
            forall|i: int| 0 <= i < ids@.len() ==> m@.contains_key(#[trigger] ids@[i]),
            have_last <==> ids@.len() > 0,
            have_last ==> last == ids@.last(),
            forall|x: u32| m@.contains_key(x) && have_last && x <= last ==> ids@.contains(x),
        ensures
            strictly_increasing(ids@),
            forall|x: u32| ids@.contains(x) <==> m@.contains_key(x),
        decreases (if have_last { 0x1_0000_0000 - last } else { 0x1_0000_0001 }),
    {
        let mut found = false;
        let mut best: u32 = 0;
        let mut j: usize = 0;
        while j < n
            invariant
                n == keys@.len(),
                j <= n,
                found ==> keys@.contains(best) && (have_last ==> best > last),
                forall|k: int| 0 <= k < j && (have_last ==> keys@[k] > last) ==> found && best <= keys@[k],
            decreases n - j,
        {
            let k = keys[j];
            if (!have_last || k > last) && (!found || k < best) {
                found = true;
                best = k;
                assert(keys@.contains(keys@[j as int]));
            }
            j += 1;
        }
        if !found {
            proof {
                assert forall|x: u32| ids@.contains(x) <==> m@.contains_key(x) by {
                    if m@.contains_key(x) {
                        assert(keys@.contains(x));
                        let k = choose|k: int| 0 <= k < keys@.len() && keys@[k] == x;
                        assert(have_last && x <= last);
                    }
                    if ids@.contains(x) {
                        let i = choose|i: int| 0 <= i < ids@.len() && ids@[i] == x;
                        assert(m@.contains_key(ids@[i]));
                    }
                }
            }
            break;
        }
        let ghost before = ids@;
        ids.push(best);
        proof {
            assert forall|x: u32| m@.contains_key(x) && x <= best implies ids@.contains(x) by {
                if x == best {
                    assert(ids@[before.len() as int] == x);
                } else if have_last && x <= last {
                    assert(before.contains(x));
                    let i = choose|i: int| 0 <= i < before.len() && before[i] == x;
                    assert(ids@[i] == x);
                } else {
                    assert(keys@.contains(x));
                    let k = choose|k: int| 0 <= k < keys@.len() && keys@[k] == x;
                    assert(best <= keys@[k]);
                }
            }
        }
        have_last = true;
        last = best;
    }
    proof {
        lemma_ascending_listing(ids@, m@.dom());
    }
    ids
}

} // verus!
