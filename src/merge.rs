use vstd::prelude::*;
use crate::email::EmailSummary;

verus! {

/// Some element of `s` carries identifier `id`.
pub open spec fn has_id(s: Seq<EmailSummary>, id: u32) -> bool {
    exists|i: int| 0 <= i < s.len() && s[i].id == id
}

/// The last element of `s` that carries identifier `id`: the attributes most
/// recently assigned to that identifier.
pub open spec fn latest_with_id(s: Seq<EmailSummary>, id: u32) -> EmailSummary
    decreases s.len(),
{
    if s.len() == 0 {
        arbitrary()
    } else if s.last().id == id {
        s.last()
    } else {
        latest_with_id(s.drop_last(), id)
    }
}

/// Identifiers strictly decrease along `s` (so each occurs once).
pub open spec fn ids_descending(s: Seq<EmailSummary>) -> bool {
    forall|i: int, j: int| 0 <= i < j < s.len() ==> s[i].id > s[j].id
}

/// `r` is `items` deduplicated by identifier, newest identifier first, each
/// identifier carrying the attributes of its last occurrence in `items`.
pub open spec fn merged_from(r: Seq<EmailSummary>, items: Seq<EmailSummary>) -> bool {
    &&& ids_descending(r)
    &&& forall|id: u32| has_id(r, id) <==> has_id(items, id)
    &&& forall|j: int| 0 <= j < r.len() ==> r[j] == latest_with_id(items, #[trigger] r[j].id)
}

/// Merges fetched summaries (page results concatenated in fetch order) into
/// one list with one entry per identifier, sorted by descending identifier;
/// where an identifier occurs more than once, its last occurrence wins.
pub fn merge_summaries(items: &Vec<EmailSummary>) -> (r: Vec<EmailSummary>)
    ensures
        merged_from(r@, items@),
{
    let mut r: Vec<EmailSummary> = Vec::new();
    let mut i: usize = 0;
    while i < items.len()
        invariant
            0 <= i <= items@.len(),
            merged_from(r@, items@.subrange(0, i as int)),
        decreases items.len() - i,
    {
        let x = items[i].clone();
        let ghost pre = items@.subrange(0, i as int);
        let ghost post = items@.subrange(0, i + 1);
        let ghost r0 = r@;
        assert(post.drop_last() =~= pre);
        assert(post.last() == x);
        let mut j: usize = 0;
        while j < r.len() && r[j].id > x.id
            invariant
                r@ == r0,
                0 <= j <= r@.len(),
                forall|k: int| 0 <= k < j ==> r@[k].id > x.id,
            decreases r.len() - j,
        {
            j = j + 1;
        }
        if j < r.len() && r[j].id == x.id {
            r.set(j, x);
            proof {
                assert forall|id: u32| has_id(r@, id) <==> has_id(post, id) by {
                    if has_id(r@, id) {
                        let k = choose|k: int| 0 <= k < r@.len() && r@[k].id == id;
                        assert(r0[k].id == id);
                        assert(has_id(pre, id));
                        let k2 = choose|k2: int| 0 <= k2 < pre.len() && pre[k2].id == id;
                        assert(post[k2].id == id);
                    }
                    if has_id(post, id) {
                        let k = choose|k: int| 0 <= k < post.len() && post[k].id == id;
                        if k < pre.len() {
                            assert(pre[k].id == id);
                            assert(has_id(r0, id));
                            let k2 = choose|k2: int| 0 <= k2 < r0.len() && r0[k2].id == id;
                            assert(r@[k2].id == id);
                        } else {
                            assert(r@[j as int].id == id);
                        }
                    }
                }
                assert forall|k: int| 0 <= k < r@.len() implies r@[k] == latest_with_id(
                    post,
                    #[trigger] r@[k].id,
                ) by {
                    if k != j {
                        assert(r@[k] == r0[k]);
                        assert(r0[k] == latest_with_id(pre, r0[k].id));
                    }
                }
            }
        } else {
            r.insert(j, x);
            proof {
                assert forall|a: int, b: int| 0 <= a < b < r@.len() implies r@[a].id > r@[b].id by {
                    if a < j && b == j {
                    } else if a == j && b > j {
                        assert(r@[b] == r0[b - 1]);
                    } else if a < j && b > j {
                        assert(r@[b] == r0[b - 1]);
                        assert(r@[a] == r0[a]);
                    } else if b < j {
                        assert(r@[a] == r0[a]);
                        assert(r@[b] == r0[b]);
                    } else {
                        assert(r@[a] == r0[a - 1]);
                        assert(r@[b] == r0[b - 1]);
                    }
                }
                assert forall|id: u32| has_id(r@, id) <==> has_id(post, id) by {
                    if has_id(r@, id) {
                        let k = choose|k: int| 0 <= k < r@.len() && r@[k].id == id;
                        if k == j {
                            assert(post[i as int].id == id);
                        } else {
                            let kk = if k < j { k } else { k - 1 };
                            assert(r0[kk].id == id);
                            assert(has_id(pre, id));
                            let k2 = choose|k2: int| 0 <= k2 < pre.len() && pre[k2].id == id;
                            assert(post[k2].id == id);
                        }
                    }
                    if has_id(post, id) {
                        let k = choose|k: int| 0 <= k < post.len() && post[k].id == id;
                        if k < pre.len() {
                            assert(pre[k].id == id);
                            assert(has_id(r0, id));
                            let k2 = choose|k2: int| 0 <= k2 < r0.len() && r0[k2].id == id;
                            if k2 < j {
                                assert(r@[k2].id == id);
                            } else {
                                assert(r@[k2 + 1].id == id);
                            }
                        } else {
                            assert(r@[j as int].id == id);
                        }
                    }
                }
                assert forall|k: int| 0 <= k < r@.len() implies r@[k] == latest_with_id(
                    post,
                    #[trigger] r@[k].id,
                ) by {
                    if k < j {
                        assert(r@[k] == r0[k]);
                        assert(r0[k] == latest_with_id(pre, r0[k].id));
                    } else if k > j {
                        assert(r@[k] == r0[k - 1]);
                        assert(r0[k - 1] == latest_with_id(pre, r0[k - 1].id));
                    }
                }
            }
        }
        i = i + 1;
    }
    assert(items@.subrange(0, items@.len() as int) =~= items@);
    r
}

/// Where two fetched pages `a` and `b` (fetched in that order) both hold
/// identifier `id`, their merge holds `id` exactly once, with the attributes
/// that `b` assigned to it.
pub proof fn lemma_overlap_merged_once(
    a: Seq<EmailSummary>,
    b: Seq<EmailSummary>,
    r: Seq<EmailSummary>,
    id: u32,
)
    requires
        merged_from(r, a + b),
        has_id(a, id),
        has_id(b, id),
    ensures
        exists|j: int|
            0 <= j < r.len() && r[j].id == id && r[j] == latest_with_id(b, id) && forall|k: int|
                0 <= k < r.len() && r[k].id == id ==> k == j,
{
    let k2 = choose|k2: int| 0 <= k2 < b.len() && b[k2].id == id;
    assert((a + b)[a.len() + k2].id == id);
    assert(has_id(a + b, id));
    assert(has_id(r, id));
    let j = choose|j: int| 0 <= j < r.len() && r[j].id == id;
    lemma_latest_in_suffix(a, b, id);
    assert forall|k: int| 0 <= k < r.len() && r[k].id == id implies k == j by {
        if k < j {
            assert(r[k].id > r[j].id);
        } else if k > j {
            assert(r[j].id > r[k].id);
        }
    }
}

/// The last occurrence of `id` in `a + b` lies in `b` when `b` holds `id`.
proof fn lemma_latest_in_suffix(a: Seq<EmailSummary>, b: Seq<EmailSummary>, id: u32)
    requires
        has_id(b, id),
    ensures
        latest_with_id(a + b, id) == latest_with_id(b, id),
    decreases b.len(),
{
    assert(b.len() > 0);
    assert((a + b).last() == b.last());
    if b.last().id != id {
        assert((a + b).drop_last() =~= a + b.drop_last());
        let k = choose|k: int| 0 <= k < b.len() && b[k].id == id;
        assert(k < b.len() - 1);
        assert(b.drop_last()[k].id == id);
        lemma_latest_in_suffix(a, b.drop_last(), id);
    }
}

} // verus!
