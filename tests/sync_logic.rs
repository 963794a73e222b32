use rs_mail_client::cycle::{
    after_idle, bodies_to_fetch, IdleAction, IdleOutcome, PollCycle, Schedule, IDLE_WAIT_SECS,
};
use rs_mail_client::merge::merge_summaries;
use rs_mail_client::paging::{page_ids, page_of_sorted, recent_sequence_start, sorted_unique_ids};
use rs_mail_client::retention::{orphaned_ids, plan_prune};
use rs_mail_client::watermark::plan_notifications;
use rs_mail_client::EmailSummary;

fn summary(id: u32, subject: &str, date: i64) -> EmailSummary {
    EmailSummary {
        id,
        from_name: "sender".to_string(),
        subject: subject.to_string(),
        snippet: String::new(),
        date_epoch: date,
    }
}

fn ids(v: &[EmailSummary]) -> Vec<u32> {
    v.iter().map(|s| s.id).collect()
}

#[test]
fn pages_over_forty_five_ids() {
    let uids: Vec<u32> = (1..=45).collect();
    assert_eq!(page_ids(&uids, 0, 20), (26..=45).rev().collect::<Vec<u32>>());
    assert_eq!(page_ids(&uids, 1, 20), (6..=25).rev().collect::<Vec<u32>>());
    assert_eq!(page_ids(&uids, 2, 20), vec![5, 4, 3, 2, 1]);
    assert!(page_ids(&uids, 3, 20).is_empty());
}

#[test]
fn pages_ignore_server_order_and_duplicates() {
    let uids = vec![7, 3, 9, 3, 1, 7];
    assert_eq!(sorted_unique_ids(&uids), vec![1, 3, 7, 9]);
    assert_eq!(page_ids(&uids, 0, 3), vec![9, 7, 3]);
    assert_eq!(page_ids(&uids, 1, 3), vec![1]);
}

#[test]
fn empty_mailbox_and_zero_page_size() {
    assert!(page_ids(&vec![], 0, 20).is_empty());
    assert!(page_ids(&vec![1, 2, 3], 0, 0).is_empty());
    assert!(page_of_sorted(&vec![1, 2, 3], u32::MAX, u32::MAX).is_empty());
}

#[test]
fn overlapping_pages_merge_once_latest_wins() {
    let first = vec![summary(12, "old twelve", 5), summary(11, "eleven", 4)];
    let second = vec![summary(12, "new twelve", 6), summary(10, "ten", 3)];
    let mut all = first.clone();
    all.extend(second.iter().cloned());
    let merged = merge_summaries(&all);
    assert_eq!(ids(&merged), vec![12, 11, 10]);
    assert_eq!(merged[0].subject, "new twelve");
    assert_eq!(merged[0].date_epoch, 6);
}

#[test]
fn merge_sorts_descending() {
    let all = vec![summary(3, "c", 0), summary(9, "i", 0), summary(5, "e", 0)];
    assert_eq!(ids(&merge_summaries(&all)), vec![9, 5, 3]);
    assert!(merge_summaries(&vec![]).is_empty());
}

#[test]
fn prune_keeps_most_recent_rows() {
    let rows = vec![(100, 1), (300, 2), (200, 3), (300, 4), (50, 5)];
    let (kept, pruned) = plan_prune(&rows, 3);
    assert_eq!(kept, vec![(300, 4), (300, 2), (200, 3)]);
    let mut pruned_ids: Vec<u32> = pruned.iter().map(|r| r.1).collect();
    pruned_ids.sort();
    assert_eq!(pruned_ids, vec![1, 5]);
}

#[test]
fn prune_with_room_keeps_everything() {
    let rows = vec![(1, 1), (2, 2)];
    let (kept, pruned) = plan_prune(&rows, 5);
    assert_eq!(kept.len(), 2);
    assert!(pruned.is_empty());
    let (kept, pruned) = plan_prune(&rows, 0);
    assert!(kept.is_empty());
    assert_eq!(pruned.len(), 2);
}

#[test]
fn cascade_finds_orphans() {
    let bodies = vec![1, 2, 3, 4];
    let surviving = vec![2, 4, 9];
    let mut orphans = orphaned_ids(&bodies, &surviving);
    orphans.sort();
    assert_eq!(orphans, vec![1, 3]);
}

#[test]
fn watermark_gates_notifications() {
    let cycle1: Vec<EmailSummary> = [10, 9, 8].iter().map(|&i| summary(i, "s", 0)).collect();
    let plan1 = plan_notifications(&merge_summaries(&cycle1), None);
    assert!(plan1.notify.is_empty());
    assert_eq!(plan1.watermark, 10);

    let cycle2: Vec<EmailSummary> =
        [12, 11, 10, 9, 8].iter().map(|&i| summary(i, "s", 0)).collect();
    let plan2 = plan_notifications(&merge_summaries(&cycle2), Some(plan1.watermark));
    assert_eq!(ids(&plan2.notify), vec![12, 11]);
    assert_eq!(plan2.watermark, 12);
}

#[test]
fn watermark_zero_counts_as_unset_and_never_drops() {
    let batch: Vec<EmailSummary> = [4, 3].iter().map(|&i| summary(i, "s", 0)).collect();
    let plan = plan_notifications(&batch, Some(0));
    assert!(plan.notify.is_empty());
    assert_eq!(plan.watermark, 4);
    let plan = plan_notifications(&batch, Some(20));
    assert!(plan.notify.is_empty());
    assert_eq!(plan.watermark, 20);
}

#[test]
fn poll_cycle_stops_at_empty_page() {
    let mut cycle = PollCycle::new(3);
    assert_eq!(cycle.next_page(), Some(0));
    cycle.page_fetched(vec![summary(5, "a", 0), summary(4, "b", 0)]);
    assert_eq!(cycle.next_page(), Some(1));
    cycle.page_fetched(vec![summary(4, "b2", 0), summary(3, "c", 0)]);
    assert_eq!(cycle.next_page(), Some(2));
    cycle.page_fetched(vec![]);
    assert_eq!(cycle.next_page(), None);
    let batch = cycle.finish().unwrap();
    assert_eq!(ids(&batch), vec![5, 4, 3]);
    assert_eq!(batch[1].subject, "b2");
}

#[test]
fn poll_cycle_limits_pages() {
    let mut cycle = PollCycle::new(1);
    assert_eq!(cycle.next_page(), Some(0));
    cycle.page_fetched(vec![summary(1, "a", 0)]);
    assert_eq!(cycle.next_page(), None);
    let empty = PollCycle::new(0);
    assert_eq!(empty.next_page(), None);
    assert!(empty.finish().is_none());
}

#[test]
fn schedule_runs_on_time_or_when_woken() {
    let mut s = Schedule::starting_at(1000);
    assert!(s.is_due(1000, false));
    s.ran_at(1000, 5);
    assert_eq!(s.next_run_ms, 6000);
    assert!(!s.is_due(5999, false));
    assert!(s.is_due(5999, true));
    assert!(s.is_due(6000, false));
    s.ran_at(u64::MAX - 10, 60);
    assert_eq!(s.next_run_ms, u64::MAX);
}

#[test]
fn recent_window_start() {
    assert_eq!(recent_sequence_start(0), 1);
    assert_eq!(recent_sequence_start(10), 1);
    assert_eq!(recent_sequence_start(11), 2);
    assert_eq!(recent_sequence_start(250), 241);
}

#[test]
fn only_uncached_bodies_are_fetched() {
    let items: Vec<EmailSummary> = [9, 8, 7, 6].iter().map(|&i| summary(i, "s", 0)).collect();
    assert_eq!(bodies_to_fetch(&items, &vec![8, 6, 100]), vec![9, 7]);
    assert_eq!(bodies_to_fetch(&items, &vec![]), vec![9, 8, 7, 6]);
    assert!(bodies_to_fetch(&items, &vec![6, 7, 8, 9]).is_empty());
}

#[test]
fn idle_outcomes_decide_the_listener() {
    assert_eq!(after_idle(IdleOutcome::MailboxChanged), IdleAction::SignalAndWait);
    assert_eq!(after_idle(IdleOutcome::TimedOut), IdleAction::Wait);
    assert_eq!(after_idle(IdleOutcome::Failed), IdleAction::Reconnect);
    assert_eq!(IDLE_WAIT_SECS, 60);
}
