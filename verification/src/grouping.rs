//! Records bucketed by card identity. The buckets live in a vector of
//! key/bucket pairs whose keys are pairwise distinct under card
//! identity equality; a lookup finds the first bucket whose key is the
//! same identity. Accumulation order never matters: a record always
//! lands in the bucket of its identity.
use vstd::prelude::*;

use crate::cardname::name_eq;
use crate::cardname::CardName;

verus! {

/// Keys are pairwise distinct identities.
pub open spec fn buckets_wf<T>(g: Seq<(CardName, Vec<T>)>) -> bool {
    forall|i: int, j: int|
        0 <= i < j < g.len() ==> !name_eq(&#[trigger] g[i].0, &#[trigger] g[j].0)
}

/// The index of the first bucket whose key is the given identity, or
/// -1 when there is none.
pub open spec fn bucket_index<T>(g: Seq<(CardName, Vec<T>)>, name: &CardName) -> int
    decreases g.len(),
{
    if g.len() == 0 {
        -1
    } else if name_eq(&g[0].0, name) {
        0
    } else {
        let r = bucket_index(g.skip(1), name);
        if r < 0 {
            -1
        } else {
            r + 1
        }
    }
}

/// What `bucket_index` finds: a valid index of a matching key with no
/// matching key before it, or -1 and no matching key at all.
pub proof fn lemma_bucket_index_char<T>(g: Seq<(CardName, Vec<T>)>, name: &CardName)
    ensures
        bucket_index(g, name) == -1 ==> forall|i: int|
            0 <= i < g.len() ==> !name_eq(&#[trigger] g[i].0, name),
        bucket_index(g, name) >= 0 ==> bucket_index(g, name) < g.len() && name_eq(
            &g[bucket_index(g, name)].0,
            name,
        ) && forall|i: int| 0 <= i < bucket_index(g, name) ==> !name_eq(&#[trigger] g[i].0, name),
    decreases g.len(),
{
    if g.len() > 0 && !name_eq(&g[0].0, name) {
        lemma_bucket_index_char(g.skip(1), name);
        assert(forall|i: int| 1 <= i < g.len() ==> g.skip(1)[i - 1] == #[trigger] g[i]);
    }
}

/// Finds the bucket of an identity.
pub fn group_get<'a, T>(g: &'a Vec<(CardName, Vec<T>)>, name: &CardName) -> (r: Option<
    &'a Vec<T>,
>)
    ensures
        r is Some <==> bucket_index(g@, name) >= 0,
        r is Some ==> *r->0 == g@[bucket_index(g@, name)].1,
{
    proof {
        lemma_bucket_index_char(g@, name);
    }
    let mut i: usize = 0;
    while i < g.len()
        invariant
            i <= g@.len(),
            forall|j: int| 0 <= j < i ==> !name_eq(&#[trigger] g@[j].0, name),
            bucket_index(g@, name) == -1 ==> forall|j: int|
                0 <= j < g@.len() ==> !name_eq(&#[trigger] g@[j].0, name),
            bucket_index(g@, name) >= 0 ==> bucket_index(g@, name) < g@.len() && name_eq(
                &g@[bucket_index(g@, name)].0,
                name,
            ) && forall|j: int| 0 <= j < bucket_index(g@, name) ==> !name_eq(
                &#[trigger] g@[j].0,
                name,
            ),
        decreases g@.len() - i,
    {
        if g[i].0 == *name {
            proof {
                if bucket_index(g@, name) == -1 {
                    assert(false);
                }
                if bucket_index(g@, name) < i {
                    assert(false);
                }
                if bucket_index(g@, name) > i {
                    assert(!name_eq(&g@[i as int].0, name));
                    assert(false);
                }
            }
            return Some(&g[i].1);
        }
        i = i + 1;
    }
    proof {
        if bucket_index(g@, name) >= 0 {
            assert(!name_eq(&g@[bucket_index(g@, name)].0, name));
        }
    }
    None
}

/// Appends a record to the bucket of its identity, creating the bucket
/// when the identity is new. Every other bucket is untouched.
pub fn group_insert<T>(g: &mut Vec<(CardName, Vec<T>)>, name: CardName, item: T)
    ensures
        bucket_index(old(g)@, &name) >= 0 ==> {
            let k = bucket_index(old(g)@, &name);
            &&& final(g)@.len() == old(g)@.len()
            &&& (forall|j: int| 0 <= j < old(g)@.len() && j != k ==> final(g)@[j] == old(g)@[j])
            &&& final(g)@[k].0 == old(g)@[k].0
            &&& final(g)@[k].1@ == old(g)@[k].1@.push(item)
        },
        bucket_index(old(g)@, &name) == -1 ==> {
            &&& final(g)@.len() == old(g)@.len() + 1
            &&& (forall|j: int| 0 <= j < old(g)@.len() ==> final(g)@[j] == old(g)@[j])
            &&& final(g)@.last().0 == name
            &&& final(g)@.last().1@ == seq![item]
        },
        buckets_wf(old(g)@) ==> buckets_wf(final(g)@),
{
    proof {
        lemma_bucket_index_char(g@, &name);
    }
    let ghost g0 = g@;
    let mut i: usize = 0;
    while i < g.len()
        invariant
            g@ == g0,
            g0 == old(g)@,
            i <= g0.len(),
            forall|j: int| 0 <= j < i ==> !name_eq(&#[trigger] g0[j].0, &name),
            bucket_index(g0, &name) == -1 ==> forall|j: int|
                0 <= j < g0.len() ==> !name_eq(&#[trigger] g0[j].0, &name),
            bucket_index(g0, &name) >= 0 ==> bucket_index(g0, &name) < g0.len() && name_eq(
                &g0[bucket_index(g0, &name)].0,
                &name,
            ) && forall|j: int| 0 <= j < bucket_index(g0, &name) ==> !name_eq(
                &#[trigger] g0[j].0,
                &name,
            ),
        decreases g0.len() - i,
    {
        if g[i].0 == name {
            proof {
                if bucket_index(g0, &name) == -1 {
                    assert(false);
                }
                if bucket_index(g0, &name) < i {
                    assert(false);
                }
                if bucket_index(g0, &name) > i {
                    assert(!name_eq(&g0[i as int].0, &name));
                    assert(false);
                }
                assert(bucket_index(g0, &name) == i as int);
            }
            let mut pair = g.remove(i);
            pair.1.push(item);
            g.insert(i, pair);
            proof {
                assert(g@ =~= g0.update(i as int, (g0[i as int].0, g@[i as int].1)));
                assert(forall|j: int| 0 <= j < g0.len() && j != i ==> g@[j] == g0[j]);
                assert(buckets_wf(g0) ==> buckets_wf(g@)) by {
                    if buckets_wf(g0) {
                        assert(forall|a: int, b: int|
                            0 <= a < b < g@.len() ==> (&g@[a].0 == &g0[a].0 && &g@[b].0
                                == &g0[b].0));
                    }
                }
            }
            return ;
        }
        i = i + 1;
    }
    proof {
        if bucket_index(g0, &name) >= 0 {
            assert(!name_eq(&g0[bucket_index(g0, &name)].0, &name));
        }
    }
    let mut bucket: Vec<T> = Vec::new();
    bucket.push(item);
    g.push((name, bucket));
    proof {
        assert(g@.last().1@ =~= seq![item]);
        assert(forall|j: int| 0 <= j < g0.len() ==> g@[j] == g0[j]);
        assert(buckets_wf(g0) ==> buckets_wf(g@)) by {
            if buckets_wf(g0) {
                assert forall|a: int, b: int| 0 <= a < b < g@.len() implies !name_eq(
                    &#[trigger] g@[a].0,
                    &#[trigger] g@[b].0,
                ) by {
                    if b == g0.len() {
                        assert(!name_eq(&g0[a].0, &name));
                    }
                }
            }
        }
    }
}

} // verus!
