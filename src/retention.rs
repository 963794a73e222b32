use vstd::prelude::*;

verus! {

/// Sort key of a cached summary row: `(date_epoch, id)`.
pub type RowKey = (i64, u32);

/// `a` ranks at or above `b` in the `(date desc, id desc)` order.
pub open spec fn ranks_at_or_above(a: RowKey, b: RowKey) -> bool {
    a.0 > b.0 || (a.0 == b.0 && a.1 >= b.1)
}

/// `s` runs newest first in the `(date desc, id desc)` order.
pub open spec fn newest_first(s: Seq<RowKey>) -> bool {
    forall|i: int, j: int| 0 <= i < j < s.len() ==> ranks_at_or_above(s[i], s[j])
}

/// The rows of `rows`, newest first, in the `(date desc, id desc)` order.
pub fn sort_newest_first(rows: &Vec<RowKey>) -> (r: Vec<RowKey>)
    ensures
        r@.to_multiset() == rows@.to_multiset(),
        newest_first(r@),
{
    broadcast use vstd::seq_lib::to_multiset_insert;

    let mut r: Vec<RowKey> = Vec::new();
    let mut i: usize = 0;
    assert(r@ =~= rows@.subrange(0, 0));
    while i < rows.len()
        invariant
            0 <= i <= rows@.len(),
            r@.to_multiset() == rows@.subrange(0, i as int).to_multiset(),
            newest_first(r@),
        decreases rows.len() - i,
    {
        let x = rows[i];
        let mut j: usize = 0;
        while j < r.len() && (r[j].0 > x.0 || (r[j].0 == x.0 && r[j].1 >= x.1))
            invariant
                0 <= j <= r@.len(),
                forall|k: int| 0 <= k < j ==> ranks_at_or_above(r@[k], x),
            decreases r.len() - j,
        {
            j = j + 1;
        }
        let ghost r0 = r@;
        r.insert(j, x);
        proof {
            assert(rows@.subrange(0, i + 1) =~= rows@.subrange(0, i as int).push(x));
            vstd::seq_lib::to_multiset_build(rows@.subrange(0, i as int), x);
            vstd::seq_lib::to_multiset_insert(r0, j as int, x);
            assert(r@ == r0.insert(j as int, x));
            assert(r@.to_multiset() == r0.to_multiset().insert(x));
            assert forall|a: int, b: int| 0 <= a < b < r@.len() implies ranks_at_or_above(
                r@[a],
                r@[b],
            ) by {
                if a < j && b == j {
                } else if a == j && b > j {
                    assert(r@[b] == r0[b - 1]);
                    if j < r0.len() {
                        assert(!ranks_at_or_above(r0[j as int], x));
                        assert(ranks_at_or_above(r0[j as int], r0[b - 1]) || b - 1 == j);
                    }
                } else if a < j && b > j {
                    assert(r@[b] == r0[b - 1]);
                    assert(r@[a] == r0[a]);
                } else if b < j {
                    assert(r@[a] == r0[a]);
                    assert(r@[b] == r0[b]);
                } else {
                    assert(r@[a] == r0[a - 1]);
                    assert(r@[b] == r0[b - 1]);
                }
            }
        }
        i = i + 1;
    }
    assert(rows@.subrange(0, rows@.len() as int) =~= rows@);
    r
}

/// Splits cached rows into the `keep` most recent in the `(date desc, id desc)`
/// order and the rest: retention keeps exactly `min(n, keep)` rows, each ranking
/// at or above every row it drops.
pub fn plan_prune(rows: &Vec<RowKey>, keep: usize) -> (r: (Vec<RowKey>, Vec<RowKey>))
    ensures
        (r.0@ + r.1@).to_multiset() == rows@.to_multiset(),
        r.0@.len() == if rows@.len() < keep {
            rows@.len()
        } else {
            keep as nat
        },
        forall|a: RowKey, b: RowKey|
            r.0@.contains(a) && r.1@.contains(b) ==> ranks_at_or_above(a, b),
        newest_first(r.0@),
{
    let mut sorted = sort_newest_first(rows);
    let ghost all = sorted@;
    proof {
        vstd::seq_lib::to_multiset_len(all);
        vstd::seq_lib::to_multiset_len(rows@);
    }
    let m: usize = if sorted.len() < keep {
        sorted.len()
    } else {
        keep
    };
    let pruned = sorted.split_off(m);
    proof {
        assert(all =~= sorted@ + pruned@);
        assert(sorted@ =~= all.subrange(0, m as int));
        assert forall|i: int, j: int| 0 <= i < j < sorted@.len() implies ranks_at_or_above(
            sorted@[i],
            sorted@[j],
        ) by {
            assert(sorted@[i] == all[i] && sorted@[j] == all[j]);
        }
        assert forall|a: RowKey, b: RowKey|
            sorted@.contains(a) && pruned@.contains(b) implies ranks_at_or_above(a, b) by {
            let p = choose|p: int| 0 <= p < sorted@.len() && sorted@[p] == a;
            let q = choose|q: int| 0 <= q < pruned@.len() && pruned@[q] == b;
            assert(all[p] == a);
            assert(all[m + q] == b);
        }
    }
    (sorted, pruned)
}

/// Identifiers among `dependent` (cached bodies or raw messages) that no
/// longer have a surviving summary row, and so must be deleted with it.
pub fn orphaned_ids(dependent: &Vec<u32>, surviving: &Vec<u32>) -> (r: Vec<u32>)
    ensures
        forall|x: u32| r@.contains(x) <==> (dependent@.contains(x) && !surviving@.contains(x)),
{
    let mut r: Vec<u32> = Vec::new();
    let mut i: usize = 0;
    while i < dependent.len()
        invariant
            0 <= i <= dependent@.len(),
            forall|x: u32|
                r@.contains(x) <==> (dependent@.subrange(0, i as int).contains(x)
                    && !surviving@.contains(x)),
        decreases dependent.len() - i,
    {
        let x = dependent[i];
        let mut found = false;
        let mut j: usize = 0;
        while j < surviving.len()
            invariant
                0 <= j <= surviving@.len(),
                found <==> surviving@.subrange(0, j as int).contains(x),
            decreases surviving.len() - j,
        {
            if surviving[j] == x {
                found = true;
            }
            proof {
                let pre = surviving@.subrange(0, j as int);
                let post = surviving@.subrange(0, j + 1);
                assert(post =~= pre.push(surviving@[j as int]));
                if surviving@[j as int] == x {
                    assert(post[j as int] == x);
                }
                if pre.contains(x) {
                    let k = choose|k: int| 0 <= k < pre.len() && pre[k] == x;
                    assert(post[k] == x);
                }
                if post.contains(x) && !pre.contains(x) {
                    let k = choose|k: int| 0 <= k < post.len() && post[k] == x;
                    if k < pre.len() {
                        assert(pre[k] == x);
                    }
                }
            }
            j = j + 1;
        }
        assert(surviving@.subrange(0, surviving@.len() as int) =~= surviving@);
        let ghost r0 = r@;
        if !found {
            r.push(x);
        }
        proof {
            let pre = dependent@.subrange(0, i as int);
            let post = dependent@.subrange(0, i + 1);
            assert(post =~= pre.push(x));
            assert forall|y: u32| r@.contains(y) <==> (post.contains(y) && !surviving@.contains(y)) by {
                if r@.contains(y) {
                    let k = choose|k: int| 0 <= k < r@.len() && r@[k] == y;
                    if k < r0.len() {
                        assert(r0[k] == y);
                        assert(r0.contains(y));
                        assert(pre.contains(y));
                        let k2 = choose|k2: int| 0 <= k2 < pre.len() && pre[k2] == y;
                        assert(post[k2] == y);
                    } else {
                        assert(post[i as int] == y);
                    }
                }
                if post.contains(y) && !surviving@.contains(y) {
                    let k = choose|k: int| 0 <= k < post.len() && post[k] == y;
                    if k < pre.len() {
                        assert(pre[k] == y);
                        assert(pre.contains(y));
                        assert(r0.contains(y));
                        let k2 = choose|k2: int| 0 <= k2 < r0.len() && r0[k2] == y;
                        assert(r@[k2] == y);
                    } else {
                        assert(r@[r@.len() - 1] == y);
                    }
                }
            }
        }
        i = i + 1;
    }
    assert(dependent@.subrange(0, dependent@.len() as int) =~= dependent@);
    r
}

/// Identifiers of `rows`.
pub open spec fn row_ids(rows: Seq<RowKey>) -> Seq<u32> {
    rows.map_values(|r: RowKey| r.1)
}

/// Retention as a whole: where `kept`/`pruned` is the split that
/// [`plan_prune`] makes of `rows` for `keep`, and `orphans` what
/// [`orphaned_ids`] reports of the cached bodies `bodies` against the kept
/// identifiers, exactly `min(n, keep)` rows survive, each ranking at or above
/// every pruned row, and every body left after the cascade belongs to a
/// surviving row.
pub proof fn lemma_prune_law(
    rows: Seq<RowKey>,
    keep: nat,
    kept: Seq<RowKey>,
    pruned: Seq<RowKey>,
    bodies: Seq<u32>,
    orphans: Seq<u32>,
)
    requires
        (kept + pruned).to_multiset() == rows.to_multiset(),
        kept.len() == if rows.len() < keep {
            rows.len()
        } else {
            keep
        },
        forall|a: RowKey, b: RowKey| kept.contains(a) && pruned.contains(b) ==> ranks_at_or_above(a, b),
        forall|y: u32| orphans.contains(y) <==> (bodies.contains(y) && !row_ids(kept).contains(y)),
    ensures
        kept.len() == if rows.len() < keep {
            rows.len()
        } else {
            keep
        },
        kept.len() + pruned.len() == rows.len(),
        forall|i: int, j: int|
            0 <= i < kept.len() && 0 <= j < pruned.len() ==> ranks_at_or_above(kept[i], pruned[j]),
        forall|x: u32|
            bodies.contains(x) && !orphans.contains(x) ==> exists|i: int|
                0 <= i < kept.len() && kept[i].1 == x,
{
    vstd::seq_lib::to_multiset_len(kept + pruned);
    vstd::seq_lib::to_multiset_len(rows);
    assert forall|i: int, j: int|
        0 <= i < kept.len() && 0 <= j < pruned.len() implies ranks_at_or_above(kept[i], pruned[j]) by {
        assert(kept.contains(kept[i]));
        assert(pruned.contains(pruned[j]));
    }
    assert forall|x: u32| bodies.contains(x) && !orphans.contains(x) implies exists|i: int|
        0 <= i < kept.len() && kept[i].1 == x by {
        assert(row_ids(kept).contains(x));
        let k = choose|k: int| 0 <= k < row_ids(kept).len() && row_ids(kept)[k] == x;
        assert(kept[k].1 == x);
    }
}

} // verus!
