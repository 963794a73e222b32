use vstd::prelude::*;
use crate::email::EmailSummary;
use crate::merge::ids_descending;

verus! {

/// The elements of `s` whose identifier is strictly above `mark`, in order.
pub open spec fn newer_than(s: Seq<EmailSummary>, mark: int) -> Seq<EmailSummary>
    decreases s.len(),
{
    if s.len() == 0 {
        Seq::empty()
    } else if s.last().id > mark {
        newer_than(s.drop_last(), mark).push(s.last())
    } else {
        newer_than(s.drop_last(), mark)
    }
}

/// The largest identifier in `s`, or 0 for an empty batch.
pub open spec fn max_id(s: Seq<EmailSummary>) -> int
    decreases s.len(),
{
    if s.len() == 0 {
        0
    } else if s.last().id > max_id(s.drop_last()) {
        s.last().id as int
    } else {
        max_id(s.drop_last())
    }
}

/// The watermark that a stored value stands for: an absent value is unset (0).
pub open spec fn stored_mark(stored: Option<i64>) -> int {
    match stored {
        Some(v) => v as int,
        None => 0,
    }
}

/// What one poll cycle announces and the watermark it leaves behind.
pub struct NotificationPlan {
    /// Summaries to announce, in the order of the batch.
    pub notify: Vec<EmailSummary>,
    /// The value to store as the new `last_seen_uid`.
    pub watermark: i64,
}

/// Decides the notifications for a fetched batch against the stored
/// `last_seen_uid` watermark. While the watermark is unset (absent or 0) the
/// cycle announces nothing and the watermark becomes the batch's largest
/// identifier; otherwise every identifier strictly above the watermark is
/// announced and the watermark moves up to the batch's largest identifier
/// (it never moves down).
pub fn plan_notifications(batch: &Vec<EmailSummary>, stored: Option<i64>) -> (r: NotificationPlan)
    ensures
        stored_mark(stored) == 0 ==> r.notify@.len() == 0 && r.watermark == max_id(batch@),
        stored_mark(stored) != 0 ==> r.notify@ == newer_than(batch@, stored_mark(stored)),
        stored_mark(stored) != 0 ==> r.watermark == if max_id(batch@) > stored_mark(stored) {
            max_id(batch@)
        } else {
            stored_mark(stored)
        },
        ids_descending(batch@) ==> ids_descending(r.notify@),
        r.watermark >= stored_mark(stored),
{
    let mark: i64 = match stored {
        Some(v) => v,
        None => 0,
    };
    let mut notify: Vec<EmailSummary> = Vec::new();
    let mut top: u32 = 0;
    let mut i: usize = 0;
    while i < batch.len()
        invariant
            0 <= i <= batch@.len(),
            mark == stored_mark(stored),
            top == max_id(batch@.subrange(0, i as int)),
            mark != 0 ==> notify@ == newer_than(batch@.subrange(0, i as int), mark as int),
            mark == 0 ==> notify@.len() == 0,
            ids_descending(batch@) ==> ids_descending(notify@),
            ids_descending(batch@) && notify@.len() > 0 ==> i > 0 && notify@.last().id >= batch@[i
                - 1].id,
        decreases batch.len() - i,
    {
        let ghost pre = batch@.subrange(0, i as int);
        let ghost post = batch@.subrange(0, i + 1);
        let ghost n0 = notify@;
        assert(post.drop_last() =~= pre);
        let id = batch[i].id;
        if id > top {
            top = id;
        }
        if mark != 0 && (id as i64) > mark {
            notify.push(batch[i].clone());
        }
        proof {
            if ids_descending(batch@) && i > 0 {
                assert(batch@[i - 1].id > batch@[i as int].id);
            }
        }
        i = i + 1;
    }
    assert(batch@.subrange(0, batch@.len() as int) =~= batch@);
    let watermark: i64 = if mark == 0 {
        top as i64
    } else if (top as i64) > mark {
        top as i64
    } else {
        mark
    };
    NotificationPlan { notify, watermark }
}

} // verus!
