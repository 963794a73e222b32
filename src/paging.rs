use vstd::prelude::*;

verus! {

/// `s` is in strictly ascending order.
pub open spec fn strictly_ascending(s: Seq<u32>) -> bool {
    forall|i: int, j: int| 0 <= i < j < s.len() ==> s[i] < s[j]
}

/// `s` is in strictly descending order.
pub open spec fn strictly_descending(s: Seq<u32>) -> bool {
    forall|i: int, j: int| 0 <= i < j < s.len() ==> s[i] > s[j]
}

/// `s` lists the distinct values of `v` in ascending order.
pub open spec fn ascending_id_set(s: Seq<u32>, v: Seq<u32>) -> bool {
    &&& strictly_ascending(s)
    &&& forall|x: u32| s.contains(x) <==> v.contains(x)
}

/// Position just past the last identifier of a page: `total - page * page_size`.
pub open spec fn window_end(total: nat, page: u32, page_size: u32) -> int {
    total - page * page_size
}

/// First position of a page: `max(end - page_size, 0)`.
pub open spec fn window_start(total: nat, page: u32, page_size: u32) -> int {
    let end = window_end(total, page, page_size);
    if end - page_size > 0 {
        end - page_size
    } else {
        0
    }
}

/// Whether the page at `page` holds no identifier.
pub open spec fn window_is_empty(total: nat, page: u32, page_size: u32) -> bool {
    window_end(total, page, page_size) <= 0 || window_start(total, page, page_size) >= window_end(
        total,
        page,
        page_size,
    )
}

/// Page `page` of an ascending identifier sequence, newest first: positions
/// `start..end` taken in reverse, where page 0 is the most recent window.
pub open spec fn page_window(sorted: Seq<u32>, page: u32, page_size: u32) -> Seq<u32> {
    let end = window_end(sorted.len(), page, page_size);
    let start = window_start(sorted.len(), page, page_size);
    if window_is_empty(sorted.len(), page, page_size) {
        Seq::empty()
    } else {
        Seq::new((end - start) as nat, |i: int| sorted[end - 1 - i])
    }
}

/// Relies on `slice::sort_unstable`: the same elements, in ascending order.
#[verifier::external_body]
fn sort_ascending(v: &mut Vec<u32>)
    ensures
        final(v)@.to_multiset() == old(v)@.to_multiset(),
        forall|i: int, j: int| 0 <= i < j < final(v)@.len() ==> final(v)@[i] <= final(v)@[j],
{
    v.sort_unstable();
}

/// The distinct identifiers of `uids`, in ascending order.
pub fn sorted_unique_ids(uids: &Vec<u32>) -> (r: Vec<u32>)
    ensures
        ascending_id_set(r@, uids@),
{
    let mut v = uids.clone();
    sort_ascending(&mut v);
    proof {
        v@.to_multiset_ensures();
        uids@.to_multiset_ensures();
        assert forall|x: u32| v@.contains(x) <==> uids@.contains(x) by {
            assert(v@.contains(x) <==> v@.to_multiset().count(x) > 0);
            assert(uids@.contains(x) <==> uids@.to_multiset().count(x) > 0);
        }
    }
    let mut r: Vec<u32> = Vec::new();
    let mut i: usize = 0;
    while i < v.len()
        invariant
            0 <= i <= v@.len(),
            forall|a: int, b: int| 0 <= a < b < v@.len() ==> v@[a] <= v@[b],
            strictly_ascending(r@),
            r@.len() > 0 ==> i > 0 && r@.last() == v@[i - 1],
            i > 0 ==> r@.len() > 0,
            forall|x: u32| r@.contains(x) <==> v@.subrange(0, i as int).contains(x),
        decreases v.len() - i,
    {
        let x = v[i];
        let ghost r0 = r@;
        let ghost pre = v@.subrange(0, i as int);
        let ghost post = v@.subrange(0, i + 1);
        assert(post =~= pre.push(x));
        if r.len() == 0 || r[r.len() - 1] < x {
            r.push(x);
            proof {
                assert(r@ == r0.push(x));
                assert forall|y: u32| r@.contains(y) <==> post.contains(y) by {
                    if r@.contains(y) && y != x {
                        let k = choose|k: int| 0 <= k < r@.len() && r@[k] == y;
                        assert(r0[k] == y);
                        assert(r0.contains(y));
                        assert(pre.contains(y));
                        let k2 = choose|k2: int| 0 <= k2 < pre.len() && pre[k2] == y;
                        assert(post[k2] == y);
                    }
                    if post.contains(y) && y != x {
                        let k = choose|k: int| 0 <= k < post.len() && post[k] == y;
                        assert(pre[k] == y);
                        assert(r0.contains(y));
                        let k2 = choose|k2: int| 0 <= k2 < r0.len() && r0[k2] == y;
                        assert(r@[k2] == y);
                    }
                    if y == x {
                        assert(r@[r0.len() as int] == x);
                        assert(post[i as int] == x);
                    }
                }
            }
        } else {
            proof {
                assert(r0.last() == v@[i - 1]);
                assert(r0.last() == x);
                assert forall|y: u32| r@.contains(y) <==> post.contains(y) by {
                    if post.contains(y) && y != x {
                        let k = choose|k: int| 0 <= k < post.len() && post[k] == y;
                        assert(pre[k] == y);
                    }
                    if y == x {
                        assert(r@[r0.len() - 1] == x);
                        assert(post[i as int] == x);
                    }
                }
            }
        }
        i = i + 1;
    }
    assert(v@.subrange(0, v@.len() as int) == v@);
    r
}

/// Identifiers of page `page` of an ascending sequence, newest first.
pub fn page_of_sorted(sorted: &Vec<u32>, page: u32, page_size: u32) -> (r: Vec<u32>)
    ensures
        r@ == page_window(sorted@, page, page_size),
{
    let total: usize = sorted.len();
    proof {
        let (a, b) = (page as int, page_size as int);
        assert(a * b <= 0xffff_ffff * 0xffff_ffff) by (nonlinear_arith)
            requires
                0 <= a <= 0xffff_ffff,
                0 <= b <= 0xffff_ffff,
        ;
    }
    let skipped: u64 = (page as u64) * (page_size as u64);
    let mut r: Vec<u32> = Vec::new();
    if skipped >= total as u64 {
        return r;
    }
    let end: usize = (total as u64 - skipped) as usize;
    let start: usize = if end > page_size as usize {
        end - page_size as usize
    } else {
        0
    };
    if start >= end {
        return r;
    }
    let mut k: usize = end;
    while k > start
        invariant
            start <= k <= end <= total == sorted@.len(),
            end == window_end(sorted@.len(), page, page_size),
            start == window_start(sorted@.len(), page, page_size),
            r@.len() == end - k,
            forall|i: int| 0 <= i < r@.len() ==> r@[i] == sorted@[end - 1 - i],
        decreases k,
    {
        r.push(sorted[k - 1]);
        k = k - 1;
    }
    assert(r@ =~= page_window(sorted@, page, page_size));
    r
}

/// Identifiers of page `page` (of `page_size` each) over the mailbox's
/// identifiers `uids`, newest first; page 0 is the most recent window.
pub fn page_ids(uids: &Vec<u32>, page: u32, page_size: u32) -> (r: Vec<u32>)
    ensures
        exists|s: Seq<u32>| ascending_id_set(s, uids@) && r@ == page_window(s, page, page_size),
        strictly_descending(r@),
{
    let sorted = sorted_unique_ids(uids);
    let r = page_of_sorted(&sorted, page, page_size);
    assert(ascending_id_set(sorted@, uids@));
    r
}

/// Messages listed by the recent-subjects overview.
pub const RECENT_COUNT: u32 = 10;

/// First sequence number of the last [`RECENT_COUNT`] messages of a mailbox
/// holding `exists` messages (sequence numbers start at 1).
pub fn recent_sequence_start(exists: u32) -> (r: u32)
    ensures
        r == if exists > RECENT_COUNT {
            exists - RECENT_COUNT + 1
        } else {
            1
        },
{
    if exists > RECENT_COUNT {
        exists - RECENT_COUNT + 1
    } else {
        1
    }
}

} // verus!
